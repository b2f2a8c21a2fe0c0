//! The two-way mapping between the labels of the two classes and the codes 0 and 1.

use crate::sample::Sample;
use vstd::prelude::*;

verus! {

/// The labels of the two classes: one stands for code 0, the other for code 1.
#[derive(Debug)]
pub struct LabelEncoding {
    zero: String,
    one: String,
}

/// The labels of `samples`, in the order of the samples.
pub open spec fn labels_of<T>(samples: Seq<Sample<T>>) -> Seq<Seq<char>> {
    Seq::new(samples.len(), |i: int| samples[i]@.label)
}

/// The least position at or after `from` whose label differs from the first label;
/// the length of `labels` if there is none.
pub open spec fn next_other(labels: Seq<Seq<char>>, from: int) -> int
    decreases labels.len() - from,
{
    if from >= labels.len() {
        labels.len() as int
    } else if labels[from] != labels[0] {
        from
    } else {
        next_other(labels, from + 1)
    }
}

/// The position of the second distinct label: the first position whose label differs
/// from the label at position 0. Where all labels are equal, the length of `labels`.
pub open spec fn second_position(labels: Seq<Seq<char>>) -> int {
    next_other(labels, 0)
}

/// Whether at least two distinct labels occur.
pub open spec fn has_second_label(labels: Seq<Seq<char>>) -> bool {
    second_position(labels) < labels.len()
}

impl LabelEncoding {
    /// The label with code 0.
    pub closed spec fn zero(&self) -> Seq<char> {
        self.zero@
    }

    /// The label with code 1.
    pub closed spec fn one(&self) -> Seq<char> {
        self.one@
    }

    /// The two labels differ.
    #[verifier::type_invariant]
    pub open spec fn wf(&self) -> bool {
        self.zero() != self.one()
    }

    /// The code of each label.
    pub open spec fn label_to_index(&self) -> Map<Seq<char>, int> {
        map![self.zero() => 0int, self.one() => 1int]
    }

    /// The label of each code.
    pub open spec fn index_to_label(&self) -> Map<int, Seq<char>> {
        map![0int => self.zero(), 1int => self.one()]
    }

    /// Whether this is the encoding that a scan of `labels` in their order gives: code 0
    /// for the first label, code 1 for the first label that differs from it.
    pub open spec fn is_read_from(&self, labels: Seq<Seq<char>>) -> bool {
        &&& has_second_label(labels)
        &&& self.zero() == labels[0]
        &&& self.one() == labels[second_position(labels)]
    }

    /// The encoding with code 0 for `zero` and code 1 for `one`.
    pub(crate) fn new(zero: String, one: String) -> (encoding: Self)
        requires
            zero@ != one@,
        ensures
            encoding.zero() == zero@,
            encoding.one() == one@,
            encoding.wf(),
    {
        LabelEncoding { zero, one }
    }

    /// The code of `label`, if it is one of the two labels.
    pub fn label_to_num(&self, label: &str) -> (num: Option<i8>)
        ensures
            self.wf(),
            match num {
                Some(k) => self.label_to_index().contains_pair(label@, k as int),
                None => !self.label_to_index().dom().contains(label@),
            },
    {
        self.code_of(&label.to_owned())
    }

    /// The code of `label`, if it is one of the two labels.
    pub(crate) fn code_of(&self, label: &String) -> (num: Option<i8>)
        ensures
            self.wf(),
            match num {
                Some(k) => self.label_to_index().contains_pair(label@, k as int),
                None => !self.label_to_index().dom().contains(label@),
            },
    {
        proof {
            use_type_invariant(self);
        }
        if *label == self.zero {
            Some(0)
        } else if *label == self.one {
            Some(1)
        } else {
            None
        }
    }

    /// The label of the code `num`, if `num` is 0 or 1.
    pub fn num_to_label(&self, num: i8) -> (label: Option<&String>)
        ensures
            self.wf(),
            match label {
                Some(l) => self.index_to_label().contains_pair(num as int, l@),
                None => !self.index_to_label().dom().contains(num as int),
            },
    {
        proof {
            use_type_invariant(self);
        }
        if num == 0 {
            Some(&self.zero)
        } else if num == 1 {
            Some(&self.one)
        } else {
            None
        }
    }
}

/// The two mappings of an encoding have two entries each and undo each other.
pub proof fn encoding_is_two_way(encoding: LabelEncoding)
    requires
        encoding.wf(),
    ensures
        encoding.label_to_index().dom().finite(),
        encoding.label_to_index().dom().len() == 2,
        encoding.index_to_label().dom() == set![0int, 1int],
        forall|label: Seq<char>, k: int|
            encoding.label_to_index().contains_pair(label, k)
                <==> encoding.index_to_label().contains_pair(k, label),
{
}

/// The second position holds the first label that differs from the label at position 0.
pub proof fn second_position_is_least(labels: Seq<Seq<char>>)
    ensures
        0 <= second_position(labels) <= labels.len(),
        has_second_label(labels) ==> labels[second_position(labels)] != labels[0],
        forall|i: int| 0 <= i < second_position(labels) ==> #[trigger] labels[i] == labels[0],
{
    next_other_is_least(labels, 0);
}

proof fn next_other_is_least(labels: Seq<Seq<char>>, from: int)
    requires
        0 <= from,
    ensures
        from <= next_other(labels, from) || labels.len() <= from,
        next_other(labels, from) <= labels.len(),
        next_other(labels, from) < labels.len() ==> labels[next_other(labels, from)]
            != labels[0],
        forall|i: int| from <= i < next_other(labels, from) ==> #[trigger] labels[i] == labels[0],
    decreases labels.len() - from,
{
    if from < labels.len() && labels[from] == labels[0] {
        next_other_is_least(labels, from + 1);
    }
}

} // verus!
