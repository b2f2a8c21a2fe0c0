//! What prediction and training compute, stated over sequences and maps.

use crate::dot::dot_product;
use crate::encoding::{labels_of, second_position};
use crate::sample::{Sample, SampleView};
use crate::scalar::Scalar;
use crate::validation::samples_ok;
use vstd::prelude::*;

verus! {

/// The learned numbers: one weight for each feature, and the bias.
pub struct Parameters<T> {
    pub weights: Seq<T>,
    pub bias: T,
}

/// All that a trained perceptron has learned.
pub struct TrainedView<T> {
    pub parameters: Parameters<T>,
    /// The code, 0 or 1, of each of the two labels.
    pub label_to_index: Map<Seq<char>, int>,
    /// The label of each of the two codes.
    pub index_to_label: Map<int, Seq<char>>,
}

/// What a perceptron holds: its learning rate and, once trained, what it has learned.
pub struct PerceptronView<T> {
    pub learning_rate: T,
    pub trained: Option<TrainedView<T>>,
}

impl<T> TrainedView<T> {
    /// There are exactly two labels, with the codes 0 and 1, and each mapping undoes
    /// the other.
    pub open spec fn wf(self) -> bool {
        &&& self.label_to_index.dom().finite()
        &&& self.label_to_index.dom().len() == 2
        &&& self.index_to_label.dom() == set![0int, 1int]
        &&& forall|label: Seq<char>, k: int|
            self.label_to_index.contains_pair(label, k) <==> self.index_to_label.contains_pair(
                k,
                label,
            )
    }
}

impl<T> PerceptronView<T> {
    /// What a trained perceptron has learned is well formed.
    pub open spec fn wf(self) -> bool {
        self.trained matches Some(t) ==> t.wf()
    }

    /// A trained perceptron with `parameters` in the place of its own. An untrained
    /// one has none to replace and stays as it is.
    pub open spec fn with_parameters(self, parameters: Parameters<T>) -> Self {
        match self.trained {
            Some(t) => PerceptronView { trained: Some(TrainedView { parameters, ..t }), ..self },
            None => self,
        }
    }

    /// Whether the label of each of `samples` has a code.
    pub open spec fn knows_labels(self, samples: Seq<Sample<T>>) -> bool {
        self.trained matches Some(t) ==> forall|i: int|
            0 <= i < samples.len() ==> t.label_to_index.dom().contains(
                #[trigger] labels_of(samples)[i],
            )
    }
}

/// The weighted sum of `features`, plus the bias.
pub open spec fn activation<T: Scalar>(p: Parameters<T>, features: Seq<T>) -> T {
    dot_product(p.weights, features).spec_plus(p.bias)
}

/// The code of the class that `features` are put in: 0 where the activation lies
/// below zero, 1 where it does not. An activation of exactly zero gives 1.
pub open spec fn predicted_code<T: Scalar>(p: Parameters<T>, features: Seq<T>) -> int {
    if activation(p, features).spec_below_zero() {
        0
    } else {
        1
    }
}

/// The correction that one sample calls for: the learning rate, multiplied by the
/// difference between the code of the sample's label and the predicted code.
pub open spec fn weight_change_factor<T: Scalar>(
    p: Parameters<T>,
    learning_rate: T,
    label_to_index: Map<Seq<char>, int>,
    sample: SampleView<T>,
) -> T {
    T::spec_from_i8(
        (label_to_index[sample.label] - predicted_code(p, sample.features)) as i8,
    ).spec_times(learning_rate)
}

/// The parameters after a correction by `factor` on `features`: each weight grows by
/// the factor times its feature, the bias by the factor. A weight without a feature
/// stays as it is.
pub open spec fn corrected<T: Scalar>(p: Parameters<T>, factor: T, features: Seq<T>) -> Parameters<
    T,
> {
    Parameters {
        weights: Seq::new(
            p.weights.len(),
            |i: int|
                if i < features.len() {
                    p.weights[i].spec_plus(factor.spec_times(features[i]))
                } else {
                    p.weights[i]
                },
        ),
        bias: p.bias.spec_plus(factor),
    }
}

/// The parameters after the update for one sample.
pub open spec fn after_sample<T: Scalar>(
    p: Parameters<T>,
    learning_rate: T,
    label_to_index: Map<Seq<char>, int>,
    sample: SampleView<T>,
) -> Parameters<T> {
    corrected(p, weight_change_factor(p, learning_rate, label_to_index, sample), sample.features)
}

/// The parameters after the updates for the first `n` of `samples`, one after the
/// other in their order.
pub open spec fn after_samples<T: Scalar>(
    p: Parameters<T>,
    learning_rate: T,
    label_to_index: Map<Seq<char>, int>,
    samples: Seq<Sample<T>>,
    n: int,
) -> Parameters<T>
    decreases n,
{
    if n <= 0 {
        p
    } else {
        after_sample(
            after_samples(p, learning_rate, label_to_index, samples, n - 1),
            learning_rate,
            label_to_index,
            samples[n - 1]@,
        )
    }
}

/// The parameters after one epoch: the updates for all of `samples`, in their order.
pub open spec fn after_epoch<T: Scalar>(
    p: Parameters<T>,
    learning_rate: T,
    label_to_index: Map<Seq<char>, int>,
    samples: Seq<Sample<T>>,
) -> Parameters<T> {
    after_samples(p, learning_rate, label_to_index, samples, samples.len() as int)
}

/// The parameters after `epochs` epochs on `samples`.
pub open spec fn after_epochs<T: Scalar>(
    p: Parameters<T>,
    learning_rate: T,
    label_to_index: Map<Seq<char>, int>,
    samples: Seq<Sample<T>>,
    epochs: int,
) -> Parameters<T>
    decreases epochs,
{
    if epochs <= 0 {
        p
    } else {
        after_epoch(
            after_epochs(p, learning_rate, label_to_index, samples, epochs - 1),
            learning_rate,
            label_to_index,
            samples,
        )
    }
}

impl<T: Scalar> PerceptronView<T> {
    /// The perceptron after the update for `sample`. An untrained one stays as it is.
    pub open spec fn after_sample(self, sample: SampleView<T>) -> Self {
        match self.trained {
            Some(t) => self.with_parameters(
                after_sample(t.parameters, self.learning_rate, t.label_to_index, sample),
            ),
            None => self,
        }
    }

    /// The perceptron after one epoch on `samples`. An untrained one stays as it is.
    pub open spec fn after_epoch(self, samples: Seq<Sample<T>>) -> Self {
        match self.trained {
            Some(t) => self.with_parameters(
                after_epoch(t.parameters, self.learning_rate, t.label_to_index, samples),
            ),
            None => self,
        }
    }
}

/// The parameters that training starts from: every weight is one, one for each
/// feature of the first sample, and the bias is zero.
pub open spec fn initial_parameters<T: Scalar>(samples: Seq<Sample<T>>) -> Parameters<T> {
    Parameters {
        weights: Seq::new(samples[0]@.features.len(), |i: int| T::spec_from_i8(1)),
        bias: T::spec_from_i8(0),
    }
}

/// The state that initialization on `samples` gives: the initial parameters, code 0
/// for the label of the first sample, and code 1 for the first label that differs.
pub open spec fn initial_state<T: Scalar>(samples: Seq<Sample<T>>) -> TrainedView<T> {
    let zero = labels_of(samples)[0];
    let one = labels_of(samples)[second_position(labels_of(samples))];
    TrainedView {
        parameters: initial_parameters(samples),
        label_to_index: map![zero => 0int, one => 1int],
        index_to_label: map![0int => zero, 1int => one],
    }
}

/// The state in which the epochs of a training run begin: a fresh one where the
/// caller asks for it or nothing was learned before, else the state as it is.
pub open spec fn starting_state<T: Scalar>(
    before: PerceptronView<T>,
    samples: Seq<Sample<T>>,
    reinitialize: bool,
) -> TrainedView<T> {
    match before.trained {
        Some(t) if !reinitialize => t,
        _ => initial_state(samples),
    }
}

/// The perceptron after a training run of `epochs` completed epochs on `samples`.
pub open spec fn trained_for<T: Scalar>(
    before: PerceptronView<T>,
    samples: Seq<Sample<T>>,
    reinitialize: bool,
    epochs: int,
) -> PerceptronView<T> {
    let start = starting_state(before, samples, reinitialize);
    PerceptronView {
        learning_rate: before.learning_rate,
        trained: Some(
            TrainedView {
                parameters: after_epochs(
                    start.parameters,
                    before.learning_rate,
                    start.label_to_index,
                    samples,
                    epochs,
                ),
                ..start
            },
        ),
    }
}

/// A training run on `samples` that was not interrupted has led from `before` to
/// `after`: the samples are fit, and `after` is what `epochs` epochs make of `before`.
pub open spec fn completes_training<T: Scalar>(
    before: PerceptronView<T>,
    after: PerceptronView<T>,
    samples: Seq<Sample<T>>,
    reinitialize: bool,
    epochs: int,
) -> bool {
    samples_ok(samples) && after == trained_for(before, samples, reinitialize, epochs)
}

} // verus!
