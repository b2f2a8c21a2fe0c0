//! What holds of every training run.

use crate::encoding::{labels_of, second_position_is_least};
use crate::model::{
    after_epochs, after_sample, after_samples, completes_training, initial_state,
    predicted_code, starting_state, trained_for, weight_change_factor, Parameters,
    PerceptronView,
};
use crate::sample::{Sample, SampleView};
use crate::scalar::Scalar;
use crate::validation::{labels_ok, samples_ok, two_labels_cover};
use vstd::prelude::*;

verus! {

/// Training holds no hidden state: two runs that start from the same state, on the
/// same samples in the same order and for the same number of epochs, end with the
/// same weights, the same bias and the same encoding of the labels.
pub proof fn training_is_deterministic<T: Scalar>(
    before1: PerceptronView<T>,
    after1: PerceptronView<T>,
    before2: PerceptronView<T>,
    after2: PerceptronView<T>,
    samples: Seq<Sample<T>>,
    reinitialize: bool,
    epochs: int,
)
    requires
        before1 == before2,
        completes_training(before1, after1, samples, reinitialize, epochs),
        completes_training(before2, after2, samples, reinitialize, epochs),
    ensures
        after1 == after2,
{
}

/// A training run that starts afresh does not depend on what was learned before:
/// its result is that of a run on a perceptron that was never trained.
pub proof fn reinitializing_discards<T: Scalar>(
    before: PerceptronView<T>,
    samples: Seq<Sample<T>>,
    epochs: int,
)
    ensures
        trained_for(before, samples, true, epochs) == trained_for(
            PerceptronView { learning_rate: before.learning_rate, trained: None },
            samples,
            false,
            epochs,
        ),
        trained_for(before, samples, true, 0).trained == Some(initial_state(samples)),
{
}

/// Initialization on fit samples gives each label that occurs in them a code, and
/// the two mappings it sets up have two entries each and undo each other.
pub proof fn initial_state_encodes_all<T: Scalar>(samples: Seq<Sample<T>>)
    requires
        labels_ok(samples),
    ensures
        initial_state(samples).wf(),
        forall|i: int|
            0 <= i < samples.len() ==> initial_state(samples).label_to_index.dom().contains(
                #[trigger] labels_of(samples)[i],
            ),
{
    two_labels_cover(labels_of(samples));
    second_position_is_least(labels_of(samples));
}

/// Updates change no weight's position: there are as many weights after any number
/// of samples as before.
pub proof fn after_samples_keeps_dimension<T: Scalar>(
    p: Parameters<T>,
    learning_rate: T,
    label_to_index: Map<Seq<char>, int>,
    samples: Seq<Sample<T>>,
    n: int,
)
    ensures
        after_samples(p, learning_rate, label_to_index, samples, n).weights.len()
            == p.weights.len(),
    decreases n,
{
    if n > 0 {
        after_samples_keeps_dimension(p, learning_rate, label_to_index, samples, n - 1);
    }
}

/// Epochs change no weight's position either.
pub proof fn after_epochs_keeps_dimension<T: Scalar>(
    p: Parameters<T>,
    learning_rate: T,
    label_to_index: Map<Seq<char>, int>,
    samples: Seq<Sample<T>>,
    epochs: int,
)
    ensures
        after_epochs(p, learning_rate, label_to_index, samples, epochs).weights.len()
            == p.weights.len(),
    decreases epochs,
{
    if epochs > 0 {
        after_epochs_keeps_dimension(p, learning_rate, label_to_index, samples, epochs - 1);
        after_samples_keeps_dimension(
            after_epochs(p, learning_rate, label_to_index, samples, epochs - 1),
            learning_rate,
            label_to_index,
            samples,
            samples.len() as int,
        );
    }
}

/// A training run on fit samples leaves a state in which the two label mappings
/// have two entries each and undo each other. The number of weights is that of the
/// state the epochs began in: after initialization, the number of features of every
/// sample of the run.
pub proof fn training_keeps_shape<T: Scalar>(
    before: PerceptronView<T>,
    samples: Seq<Sample<T>>,
    reinitialize: bool,
    epochs: int,
)
    requires
        before.wf(),
        samples_ok(samples),
    ensures
        trained_for(before, samples, reinitialize, epochs).wf(),
        trained_for(before, samples, reinitialize, epochs).trained->0.parameters.weights.len()
            == starting_state(before, samples, reinitialize).parameters.weights.len(),
        reinitialize || before.trained is None ==> forall|i: int|
            0 <= i < samples.len() ==> trained_for(
                before,
                samples,
                reinitialize,
                epochs,
            ).trained->0.parameters.weights.len() == (#[trigger] samples[i])@.features.len(),
{
    let start = starting_state(before, samples, reinitialize);
    initial_state_encodes_all(samples);
    after_epochs_keeps_dimension(
        start.parameters,
        before.learning_rate,
        start.label_to_index,
        samples,
        epochs,
    );
}

/// Epochs add up: `more` epochs after `done` epochs are `done + more` epochs.
pub proof fn after_epochs_adds_up<T: Scalar>(
    p: Parameters<T>,
    learning_rate: T,
    label_to_index: Map<Seq<char>, int>,
    samples: Seq<Sample<T>>,
    done: int,
    more: int,
)
    requires
        0 <= done,
        0 <= more,
    ensures
        after_epochs(
            after_epochs(p, learning_rate, label_to_index, samples, done),
            learning_rate,
            label_to_index,
            samples,
            more,
        ) == after_epochs(p, learning_rate, label_to_index, samples, done + more),
    decreases more,
{
    if more > 0 {
        after_epochs_adds_up(p, learning_rate, label_to_index, samples, done, more - 1);
    }
}

/// Training that goes on takes up where the run before it ended: a run of `done`
/// epochs and then, on the same samples and without starting afresh, a run of `more`
/// epochs give what one run of `done + more` epochs gives.
pub proof fn training_goes_on<T: Scalar>(
    before: PerceptronView<T>,
    samples: Seq<Sample<T>>,
    reinitialize: bool,
    done: int,
    more: int,
)
    requires
        0 <= done,
        0 <= more,
    ensures
        trained_for(trained_for(before, samples, reinitialize, done), samples, false, more)
            == trained_for(before, samples, reinitialize, done + more),
{
    let start = starting_state(before, samples, reinitialize);
    after_epochs_adds_up(
        start.parameters,
        before.learning_rate,
        start.label_to_index,
        samples,
        done,
        more,
    );
}

/// With integers and a learning rate above the least `i64`, the weight change factor
/// is the learning rate times the difference of the codes: zero where the prediction
/// is right, the learning rate where it is too small, and the opposite of the
/// learning rate where it is too big.
pub proof fn integer_factor_is_signed_rate(
    p: Parameters<i64>,
    learning_rate: i64,
    label_to_index: Map<Seq<char>, int>,
    sample: SampleView<i64>,
)
    requires
        label_to_index[sample.label] == 0 || label_to_index[sample.label] == 1,
        learning_rate > i64::MIN,
    ensures
        weight_change_factor(p, learning_rate, label_to_index, sample) == (
        label_to_index[sample.label] - predicted_code(p, sample.features)) * learning_rate,
{
    let difference = label_to_index[sample.label] - predicted_code(p, sample.features);
    assert(difference * learning_rate == if difference == 0 {
        0
    } else if difference == 1 {
        learning_rate as int
    } else {
        -learning_rate
    }) by (nonlinear_arith)
        requires
            difference == -1 || difference == 0 || difference == 1,
    ;
}

/// With integers, the update for a sample whose class is predicted rightly changes
/// neither the weights nor the bias.
pub proof fn right_prediction_changes_nothing(
    p: Parameters<i64>,
    learning_rate: i64,
    label_to_index: Map<Seq<char>, int>,
    sample: SampleView<i64>,
)
    requires
        label_to_index[sample.label] == predicted_code(p, sample.features),
    ensures
        after_sample(p, learning_rate, label_to_index, sample) == p,
{
    assert(0 * learning_rate == 0) by (nonlinear_arith);
    let q = after_sample(p, learning_rate, label_to_index, sample);
    assert forall|i: int| 0 <= i < p.weights.len() implies q.weights[i] == p.weights[i] by {
        if i < sample.features.len() {
            assert(0 * sample.features[i] == 0) by (nonlinear_arith);
        }
    }
    assert(q.weights =~= p.weights);
}

} // verus!
