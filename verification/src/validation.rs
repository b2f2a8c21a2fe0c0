//! Which sets of samples can be trained on.

use crate::encoding::{
    has_second_label, labels_of, second_position, second_position_is_least, LabelEncoding,
};
use crate::error::{Flaw, PerceptronError};
use crate::perceptron::Perceptron;
use crate::sample::Sample;
use crate::scalar::Scalar;
use vstd::prelude::*;
use vstd::set_lib::lemma_len_subset;

verus! {

/// The set of the labels that occur in `samples`.
pub open spec fn distinct_labels<T>(samples: Seq<Sample<T>>) -> Set<Seq<char>> {
    labels_of(samples).to_set()
}

/// Exactly two distinct labels occur in `samples`.
pub open spec fn labels_ok<T>(samples: Seq<Sample<T>>) -> bool {
    distinct_labels(samples).len() == 2
}

/// Every sample has as many features as the first one.
pub open spec fn tensors_ok<T>(samples: Seq<Sample<T>>) -> bool {
    forall|i: int|
        0 <= i < samples.len() ==> (#[trigger] samples[i])@.features.len()
            == samples[0]@.features.len()
}

/// The samples can be trained on.
pub open spec fn samples_ok<T>(samples: Seq<Sample<T>>) -> bool {
    labels_ok(samples) && tensors_ok(samples)
}

/// Every label is the first label or the first label that differs from it.
pub open spec fn covered_by_two(labels: Seq<Seq<char>>) -> bool {
    forall|i: int|
        0 <= i < labels.len() ==> #[trigger] labels[i] == labels[0] || labels[i]
            == labels[second_position(labels)]
}

/// A sequence of labels holds exactly two distinct labels if and only if a second
/// label occurs and every label is the first or the second one.
pub proof fn two_labels_cover(labels: Seq<Seq<char>>)
    ensures
        labels.to_set().len() == 2 <==> has_second_label(labels) && covered_by_two(labels),
{
    let s = labels.to_set();
    let j = second_position(labels);
    second_position_is_least(labels);
    if labels.len() == 0 {
        assert(s =~= Set::empty());
    } else if j == labels.len() {
        assert(s =~= set![labels[0]]);
    } else {
        let a = labels[0];
        let b = labels[j];
        if covered_by_two(labels) {
            assert(s =~= set![a, b]);
        } else {
            let i = choose|i: int|
                0 <= i < labels.len() && !(#[trigger] labels[i] == labels[0] || labels[i]
                    == labels[second_position(labels)]);
            let c = labels[i];
            let t = set![a, b, c];
            lemma_len_subset(t, s);
        }
    }
}

/// Samples with exactly two distinct labels are at least two.
pub proof fn two_labels_need_two_samples<T>(samples: Seq<Sample<T>>)
    requires
        labels_ok(samples),
    ensures
        samples.len() >= 2,
{
    two_labels_cover(labels_of(samples));
    second_position_is_least(labels_of(samples));
}

/// The position of the first sample whose label differs from that of the first sample.
fn second_label_position<T: Scalar>(samples: &[Sample<T>]) -> (j: usize)
    requires
        samples@.len() > 0,
    ensures
        j == second_position(labels_of(samples@)),
{
    let ghost labels = labels_of(samples@);
    let mut j: usize = 1;
    while j < samples.len()
        invariant
            1 <= j <= samples@.len(),
            labels == labels_of(samples@),
            forall|i: int| 0 <= i < j ==> #[trigger] labels[i] == labels[0],
        decreases samples@.len() - j,
    {
        if !samples[j].same_label(&samples[0]) {
            proof {
                second_position_is_least(labels);
                assert(labels[j as int] != labels[0]);
            }
            return j;
        }
        j += 1;
    }
    proof {
        second_position_is_least(labels);
    }
    j
}

impl<T: Scalar> Perceptron<T> {
    /// Accepts `samples` if they can be trained on. The labels are looked at first:
    /// where they are unfit, the lengths of the feature vectors are not reported.
    pub fn check_samples_ok(samples: &[Sample<T>]) -> (checked: Result<(), PerceptronError>)
        ensures
            checked is Ok <==> samples_ok(samples@),
            !labels_ok(samples@) ==> checked == Err::<(), _>(
                PerceptronError::Configuration(Flaw::LabelCount),
            ),
            labels_ok(samples@) && !tensors_ok(samples@) ==> checked == Err::<(), _>(
                PerceptronError::Configuration(Flaw::FeatureLength),
            ),
    {
        match Self::check_labels_ok(samples) {
            Ok(()) => {
                proof {
                    two_labels_need_two_samples(samples@);
                }
                Self::check_tensors_ok(samples)
            },
            Err(e) => Err(e),
        }
    }

    /// Accepts `samples` if exactly two distinct labels occur in them.
    pub fn check_labels_ok(samples: &[Sample<T>]) -> (checked: Result<(), PerceptronError>)
        ensures
            checked is Ok <==> labels_ok(samples@),
            checked is Err ==> checked == Err::<(), _>(
                PerceptronError::Configuration(Flaw::LabelCount),
            ),
    {
        let ghost labels = labels_of(samples@);
        proof {
            two_labels_cover(labels);
            second_position_is_least(labels);
        }
        let n = samples.len();
        if n == 0 {
            return Err(PerceptronError::Configuration(Flaw::LabelCount));
        }
        let j = second_label_position(samples);
        if j == n {
            return Err(PerceptronError::Configuration(Flaw::LabelCount));
        }
        let mut i: usize = j + 1;
        while i < n
            invariant
                j < i <= n,
                n == samples@.len(),
                labels == labels_of(samples@),
                j == second_position(labels),
                forall|k: int| 0 <= k < j ==> #[trigger] labels[k] == labels[0],
                forall|k: int|
                    j <= k < i ==> #[trigger] labels[k] == labels[0] || labels[k]
                        == labels[j as int],
            decreases n - i,
        {
            if !samples[i].same_label(&samples[0]) && !samples[i].same_label(&samples[j]) {
                proof {
                    two_labels_cover(labels);
                    assert(!(labels[i as int] == labels[0] || labels[i as int]
                        == labels[second_position(labels)]));
                }
                return Err(PerceptronError::Configuration(Flaw::LabelCount));
            }
            i += 1;
        }
        proof {
            two_labels_cover(labels);
        }
        Ok(())
    }

    /// Accepts `samples` if all their feature vectors have the length of the first one.
    pub fn check_tensors_ok(samples: &[Sample<T>]) -> (checked: Result<(), PerceptronError>)
        requires
            samples@.len() > 0,
        ensures
            checked is Ok <==> tensors_ok(samples@),
            checked is Err ==> checked == Err::<(), _>(
                PerceptronError::Configuration(Flaw::FeatureLength),
            ),
    {
        let shape = samples[0].get_n_features();
        let mut i: usize = 1;
        while i < samples.len()
            invariant
                1 <= i <= samples@.len(),
                shape == samples@[0]@.features.len(),
                forall|k: int|
                    0 <= k < i ==> (#[trigger] samples@[k])@.features.len() == shape,
            decreases samples@.len() - i,
        {
            if samples[i].get_n_features() != shape {
                return Err(PerceptronError::Configuration(Flaw::FeatureLength));
            }
            i += 1;
        }
        Ok(())
    }

    /// Reads the encoding of the labels off `samples`: code 0 for the label of the
    /// first sample, code 1 for the first label that differs from it. The samples
    /// after that one are not looked at. There is no encoding where fewer than two
    /// distinct labels occur.
    pub fn create_label_to_num(samples: &[Sample<T>]) -> (encoding: Option<LabelEncoding>)
        ensures
            match encoding {
                Some(e) => e.wf() && e.is_read_from(labels_of(samples@)),
                None => !has_second_label(labels_of(samples@)),
            },
    {
        if samples.len() == 0 {
            return None;
        }
        let j = second_label_position(samples);
        if j == samples.len() {
            return None;
        }
        proof {
            second_position_is_least(labels_of(samples@));
        }
        Some(
            LabelEncoding::new(
                samples[0].get_label().to_owned(),
                samples[j].get_label().to_owned(),
            ),
        )
    }
}

} // verus!
