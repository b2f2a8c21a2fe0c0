//! The perceptron: its parameters, training and prediction.

use crate::dot::Dot;
use crate::encoding::{encoding_is_two_way, has_second_label, labels_of, LabelEncoding};
use crate::error::{Asked, Flaw, PerceptronError};
use crate::laws::initial_state_encodes_all;
use crate::model::{
    after_samples, completes_training, corrected, initial_parameters, initial_state,
    predicted_code, trained_for, weight_change_factor, Parameters, PerceptronView, TrainedView,
};
use crate::sample::Sample;
use crate::scalar::Scalar;
use crate::signals::check_signals;
use crate::validation::{labels_ok, samples_ok, tensors_ok, two_labels_cover};
use pyo3::PyErr;
use vstd::prelude::*;

verus! {

/// What training has set: the parameters and the encoding of the labels.
#[derive(Debug)]
struct Learned<T> {
    weights: Vec<T>,
    bias: T,
    labels: LabelEncoding,
}

/// A binary linear classifier. It is untrained until its first training run: the
/// weights, the bias and the encoding of the labels come into being together.
#[derive(Debug)]
pub struct Perceptron<T> {
    learning_rate: T,
    learned: Option<Learned<T>>,
}

impl<T> View for Learned<T> {
    type V = TrainedView<T>;

    closed spec fn view(&self) -> TrainedView<T> {
        TrainedView {
            parameters: Parameters { weights: self.weights@, bias: self.bias },
            label_to_index: self.labels.label_to_index(),
            index_to_label: self.labels.index_to_label(),
        }
    }
}

impl<T> View for Perceptron<T> {
    type V = PerceptronView<T>;

    closed spec fn view(&self) -> PerceptronView<T> {
        PerceptronView {
            learning_rate: self.learning_rate,
            trained: match self.learned {
                Some(learned) => Some(learned@),
                None => None,
            },
        }
    }
}

impl<T: Scalar> Learned<T> {
    /// The two labels differ, so each mapping of the view has two entries.
    fn view_is_wf(&self)
        ensures
            self@.wf(),
    {
        proof {
            use_type_invariant(&self.labels);
            encoding_is_two_way(self.labels);
        }
    }

    /// Adds `factor` times each feature to the weight of that feature, and `factor`
    /// to the bias.
    fn correct(&mut self, factor: T, features: &Vec<T>)
        ensures
            final(self)@ == (TrainedView {
                parameters: corrected(old(self)@.parameters, factor, features@),
                ..old(self)@
            }),
    {
        let n: usize = if self.weights.len() <= features.len() {
            self.weights.len()
        } else {
            features.len()
        };
        let mut i: usize = 0;
        while i < n
            invariant
                i <= n,
                n <= features@.len(),
                n <= old(self).weights@.len(),
                self.weights@.len() == old(self).weights@.len(),
                self.bias == old(self).bias,
                self.labels == old(self).labels,
                forall|k: int|
                    0 <= k < i ==> #[trigger] self.weights@[k] == old(self).weights@[k].spec_plus(
                        factor.spec_times(features@[k]),
                    ),
                forall|k: int|
                    i <= k < self.weights@.len() ==> #[trigger] self.weights@[k] == old(
                        self,
                    ).weights@[k],
            decreases n - i,
        {
            let weight = self.weights[i].plus(factor.times(features[i]));
            self.weights[i] = weight;
            i += 1;
        }
        self.bias = self.bias.plus(factor);
        assert(self@.parameters.weights =~= corrected(
            old(self)@.parameters,
            factor,
            features@,
        ).weights);
    }
}

impl<T: Scalar> Perceptron<T> {
    /// An untrained perceptron with the given learning rate.
    pub fn new(learning_rate: T) -> (perceptron: Self)
        ensures
            perceptron@ == (PerceptronView { learning_rate, trained: None }),
    {
        Perceptron { learning_rate, learned: None }
    }

    /// The step size of the updates.
    pub fn get_learning_rate(&self) -> (learning_rate: T)
        ensures
            learning_rate == self@.learning_rate,
    {
        self.learning_rate
    }

    /// A copy of the weights; the not-trained error before the first training run.
    pub fn get_weights(&self) -> (weights: Result<Vec<T>, PerceptronError>)
        ensures
            match self@.trained {
                Some(t) => weights matches Ok(w) && w@ == t.parameters.weights,
                None => weights == Err::<Vec<T>, _>(PerceptronError::NotTrained(Asked::Weights)),
            },
    {
        match &self.learned {
            Some(learned) => {
                let mut weights: Vec<T> = Vec::new();
                let mut i: usize = 0;
                while i < learned.weights.len()
                    invariant
                        i <= learned.weights.len(),
                        weights@ == learned.weights@.take(i as int),
                    decreases learned.weights.len() - i,
                {
                    weights.push(learned.weights[i]);
                    i += 1;
                }
                Ok(weights)
            },
            None => Err(PerceptronError::NotTrained(Asked::Weights)),
        }
    }

    /// The bias; the not-trained error before the first training run.
    pub fn get_bias(&self) -> (bias: Result<T, PerceptronError>)
        ensures
            match self@.trained {
                Some(t) => bias == Ok::<T, PerceptronError>(t.parameters.bias),
                None => bias == Err::<T, _>(PerceptronError::NotTrained(Asked::Bias)),
            },
    {
        match &self.learned {
            Some(learned) => Ok(learned.bias),
            None => Err(PerceptronError::NotTrained(Asked::Bias)),
        }
    }

    /// Sets the step size of the updates. Nothing that was learned changes.
    pub fn set_learning_rate(&mut self, value: T)
        ensures
            final(self)@ == (PerceptronView { learning_rate: value, ..old(self)@ }),
            final(self)@.wf(),
    {
        self.learning_rate = value;
        self.view_is_wf();
    }

    /// Puts `value` in the place of the weights. An untrained perceptron has no
    /// weights to replace: it stays untrained, and the not-trained error comes back.
    pub fn set_weights(&mut self, value: Vec<T>) -> (set: Result<(), PerceptronError>)
        ensures
            final(self)@.wf(),
            match old(self)@.trained {
                Some(t) => set is Ok && final(self)@ == old(self)@.with_parameters(
                    Parameters { weights: value@, bias: t.parameters.bias },
                ),
                None => set == Err::<(), _>(PerceptronError::NotTrained(Asked::Weights))
                    && final(self)@ == old(self)@,
            },
    {
        match &mut self.learned {
            Some(learned) => {
                learned.weights = value;
                learned.view_is_wf();
                Ok(())
            },
            None => Err(PerceptronError::NotTrained(Asked::Weights)),
        }
    }

    /// Puts `value` in the place of the bias. An untrained perceptron has no bias to
    /// replace: it stays untrained, and the not-trained error comes back.
    pub fn set_bias(&mut self, value: T) -> (set: Result<(), PerceptronError>)
        ensures
            final(self)@.wf(),
            match old(self)@.trained {
                Some(t) => set is Ok && final(self)@ == old(self)@.with_parameters(
                    Parameters { weights: t.parameters.weights, bias: value },
                ),
                None => set == Err::<(), _>(PerceptronError::NotTrained(Asked::Bias))
                    && final(self)@ == old(self)@,
            },
    {
        match &mut self.learned {
            Some(learned) => {
                learned.bias = value;
                learned.view_is_wf();
                Ok(())
            },
            None => Err(PerceptronError::NotTrained(Asked::Bias)),
        }
    }

    /// Trains on `samples` for `n_epochs` epochs.
    ///
    /// The samples are checked first, and unfit ones change nothing. A perceptron
    /// that was never trained, or any perceptron if `reinitialize_params` is set,
    /// starts afresh; else training goes on from the parameters as they are, which
    /// takes samples whose labels have a code. Before each epoch the interpreter's
    /// signals are polled: an exception from there ends the run, and the epochs
    /// completed until then are kept.
    pub fn train(
        &mut self,
        samples: Vec<Sample<T>>,
        n_epochs: usize,
        reinitialize_params: bool,
    ) -> (trained: Result<(), PerceptronError>)
        requires
            !reinitialize_params && n_epochs > 0 && samples_ok(samples@) ==> old(
                self,
            )@.knows_labels(samples@),
        ensures
            final(self)@.wf(),
            !samples_ok(samples@) ==> trained is Err,
            match trained {
                Ok(()) => completes_training(
                    old(self)@,
                    final(self)@,
                    samples@,
                    reinitialize_params,
                    n_epochs as int,
                ),
                Err(PerceptronError::Configuration(flaw)) => {
                    &&& final(self)@ == old(self)@
                    &&& flaw == Flaw::LabelCount <==> !labels_ok(samples@)
                    &&& flaw == Flaw::FeatureLength <==> labels_ok(samples@) && !tensors_ok(
                        samples@,
                    )
                },
                Err(PerceptronError::Cancelled(_)) => exists|done: int|
                    0 <= done < n_epochs && #[trigger] completes_training(
                        old(self)@,
                        final(self)@,
                        samples@,
                        reinitialize_params,
                        done,
                    ),
                Err(PerceptronError::NotTrained(_)) => false,
            },
            trained is Ok && (reinitialize_params || n_epochs > 0 || old(self)@.trained is None)
                ==> final(self)@.knows_labels(samples@),
    {
        self.view_is_wf();
        match Self::check_samples_ok(samples.as_slice()) {
            Ok(()) => {},
            Err(e) => {
                return Err(e);
            },
        }
        proof {
            two_labels_cover(labels_of(samples@));
            initial_state_encodes_all(samples@);
        }
        if reinitialize_params || self.learned.is_none() {
            self.initialize_params(samples.as_slice());
        }
        let mut done: usize = 0;
        while done < n_epochs
            invariant
                done <= n_epochs,
                samples_ok(samples@),
                self@ == trained_for(old(self)@, samples@, reinitialize_params, done as int),
                reinitialize_params || n_epochs > 0 || old(self)@.trained is None
                    ==> self@.knows_labels(samples@),
            decreases n_epochs - done,
        {
            match self.epoch_after_poll(samples.as_slice(), check_signals()) {
                Ok(()) => {},
                Err(e) => {
                    assert(completes_training(
                        old(self)@,
                        self@,
                        samples@,
                        reinitialize_params,
                        done as int,
                    ));
                    self.view_is_wf();
                    return Err(e);
                },
            }
            done += 1;
        }
        self.view_is_wf();
        Ok(())
    }

    /// One step of a training run, after the signals were polled: an exception from
    /// the poll stops the run before the epoch and changes nothing; any other answer,
    /// that of a poll that found no interpreter too, lets the epoch run.
    pub fn epoch_after_poll(
        &mut self,
        samples: &[Sample<T>],
        polled: Option<Result<(), PyErr>>,
    ) -> (stepped: Result<(), PerceptronError>)
        requires
            old(self)@.knows_labels(samples@),
        ensures
            final(self)@.wf(),
            match polled {
                Some(Err(exception)) => {
                    &&& stepped == Err::<(), _>(PerceptronError::Cancelled(exception))
                    &&& final(self)@ == old(self)@
                },
                _ => {
                    &&& final(self)@ == old(self)@.after_epoch(samples@)
                    &&& stepped is Err <==> old(self)@.trained is None && samples@.len() > 0
                    &&& stepped is Err ==> stepped == Err::<(), _>(
                        PerceptronError::NotTrained(Asked::Prediction),
                    )
                },
            },
    {
        match polled {
            Some(Err(exception)) => {
                self.view_is_wf();
                Err(PerceptronError::Cancelled(exception))
            },
            _ => self.train_for_one_epoch(samples),
        }
    }

    /// The label of the class that `sample` is put in. Nothing of the perceptron
    /// changes: it is only read.
    pub fn predict(&self, sample: &Sample<T>) -> (label: Result<&String, PerceptronError>)
        ensures
            self@.wf(),
            match self@.trained {
                Some(t) => label matches Ok(l) && l@ == t.index_to_label[predicted_code(
                    t.parameters,
                    sample@.features,
                )],
                None => label == Err::<&String, _>(
                    PerceptronError::NotTrained(Asked::Prediction),
                ),
            },
    {
        self.view_is_wf();
        let code = match self.predict_num(sample) {
            Ok(code) => code,
            Err(e) => {
                return Err(e);
            },
        };
        match &self.learned {
            Some(learned) => match learned.labels.num_to_label(code) {
                Some(label) => Ok(label),
                None => Err(PerceptronError::NotTrained(Asked::Prediction)),
            },
            None => Err(PerceptronError::NotTrained(Asked::Prediction)),
        }
    }

    /// Whether the perceptron has a code for the label of each of `samples`, as it
    /// must to go on learning from them. An untrained perceptron has none to miss.
    pub fn recognizes(&self, samples: &[Sample<T>]) -> (known: bool)
        ensures
            known == self@.knows_labels(samples@),
    {
        match &self.learned {
            Some(learned) => {
                let mut i: usize = 0;
                while i < samples.len()
                    invariant
                        i <= samples@.len(),
                        self@.trained == Some(learned@),
                        forall|k: int|
                            0 <= k < i ==> learned@.label_to_index.dom().contains(
                                #[trigger] labels_of(samples@)[k],
                            ),
                    decreases samples@.len() - i,
                {
                    if learned.labels.code_of(samples[i].label_string()).is_none() {
                        assert(!learned@.label_to_index.dom().contains(
                            labels_of(samples@)[i as int],
                        ));
                        return false;
                    }
                    i += 1;
                }
                true
            },
            None => true,
        }
    }

    /// Sets the weights, the bias and the encoding of the labels to what training on
    /// `samples` starts from, whatever they were.
    fn initialize_params(&mut self, samples: &[Sample<T>])
        requires
            has_second_label(labels_of(samples@)),
        ensures
            final(self)@ == (PerceptronView {
                learning_rate: old(self)@.learning_rate,
                trained: Some(initial_state(samples@)),
            }),
    {
        if let Some(labels) = Self::create_label_to_num(samples) {
            let weights = Self::create_weights(samples);
            let bias = Self::create_bias(samples);
            self.learned = Some(Learned { weights, bias, labels });
        }
    }

    /// As many weights as the first sample has features, each of them one.
    fn create_weights(samples: &[Sample<T>]) -> (weights: Vec<T>)
        requires
            samples@.len() > 0,
        ensures
            weights@ == initial_parameters(samples@).weights,
    {
        let n = samples[0].get_n_features();
        let mut weights: Vec<T> = Vec::new();
        let mut i: usize = 0;
        while i < n
            invariant
                i <= n,
                weights@.len() == i,
                forall|k: int| 0 <= k < i ==> #[trigger] weights@[k] == T::spec_from_i8(1),
            decreases n - i,
        {
            weights.push(T::from_i8(1));
            i += 1;
        }
        weights
    }

    /// The bias that training starts from: zero, whatever the samples.
    fn create_bias(_samples: &[Sample<T>]) -> (bias: T)
        ensures
            bias == initial_parameters(_samples@).bias,
    {
        T::from_i8(0)
    }

    /// The code of the class that `sample` is put in, by its features alone: 0 where
    /// the weighted sum of the features plus the bias lies below zero, else 1.
    pub fn predict_num(&self, sample: &Sample<T>) -> (code: Result<i8, PerceptronError>)
        ensures
            match self@.trained {
                Some(t) => code matches Ok(c) && c == predicted_code(
                    t.parameters,
                    sample@.features,
                ),
                None => code == Err::<i8, _>(PerceptronError::NotTrained(Asked::Prediction)),
            },
    {
        match &self.learned {
            Some(learned) => {
                let z = learned.weights.dot(sample.get_feature_vector_as_ref().as_slice()).plus(
                    learned.bias,
                );
                if z.below_zero() {
                    Ok(0)
                } else {
                    Ok(1)
                }
            },
            None => Err(PerceptronError::NotTrained(Asked::Prediction)),
        }
    }

    /// One epoch: the update for each of `samples`, in their order. An untrained
    /// perceptron fails at the first sample, if there is one.
    pub fn train_for_one_epoch(&mut self, samples: &[Sample<T>]) -> (trained: Result<
        (),
        PerceptronError,
    >)
        requires
            old(self)@.knows_labels(samples@),
        ensures
            final(self)@.wf(),
            final(self)@ == old(self)@.after_epoch(samples@),
            trained is Err <==> old(self)@.trained is None && samples@.len() > 0,
            trained is Err ==> trained == Err::<(), _>(
                PerceptronError::NotTrained(Asked::Prediction),
            ),
    {
        self.view_is_wf();
        let mut i: usize = 0;
        while i < samples.len()
            invariant
                i <= samples@.len(),
                old(self)@.knows_labels(samples@),
                self@.wf(),
                match old(self)@.trained {
                    Some(t) => self@ == old(self)@.with_parameters(
                        after_samples(
                            t.parameters,
                            old(self)@.learning_rate,
                            t.label_to_index,
                            samples@,
                            i as int,
                        ),
                    ),
                    None => self@ == old(self)@ && i == 0,
                },
            decreases samples@.len() - i,
        {
            assert(labels_of(samples@)[i as int] == samples@[i as int]@.label);
            match self.update_params(&samples[i]) {
                Ok(()) => {},
                Err(e) => {
                    return Err(e);
                },
            }
            i += 1;
        }
        Ok(())
    }

    /// Applies the update rule for one sample: each weight grows by the weight change
    /// factor times its feature, the bias by the factor.
    pub fn update_params(&mut self, sample: &Sample<T>) -> (updated: Result<(), PerceptronError>)
        requires
            old(self)@.trained matches Some(t) ==> t.label_to_index.dom().contains(sample@.label),
        ensures
            final(self)@.wf(),
            final(self)@ == old(self)@.after_sample(sample@),
            match old(self)@.trained {
                Some(_) => updated is Ok,
                None => updated == Err::<(), _>(PerceptronError::NotTrained(Asked::Prediction)),
            },
    {
        let factor = match self.calculate_wcf(sample) {
            Ok(factor) => factor,
            Err(e) => {
                self.view_is_wf();
                return Err(e);
            },
        };
        match &mut self.learned {
            Some(learned) => {
                learned.correct(factor, sample.get_feature_vector_as_ref());
                learned.view_is_wf();
            },
            None => {},
        }
        Ok(())
    }

    /// The weight change factor for `sample`: the learning rate, multiplied by the
    /// code of the sample's label minus the predicted code. That is zero times the rate
    /// where the prediction is right, the rate where it is too small, and minus one
    /// times the rate where it is too big.
    pub fn calculate_wcf(&self, sample: &Sample<T>) -> (factor: Result<T, PerceptronError>)
        requires
            self@.trained matches Some(t) ==> t.label_to_index.dom().contains(sample@.label),
        ensures
            match self@.trained {
                Some(t) => factor == Ok::<T, PerceptronError>(
                    weight_change_factor(
                        t.parameters,
                        self@.learning_rate,
                        t.label_to_index,
                        sample@,
                    ),
                ),
                None => factor == Err::<T, _>(PerceptronError::NotTrained(Asked::Prediction)),
            },
    {
        let prediction = match self.predict_num(sample) {
            Ok(code) => code,
            Err(e) => {
                return Err(e);
            },
        };
        match &self.learned {
            Some(learned) => match learned.labels.code_of(sample.label_string()) {
                Some(actual) => {
                    let multiplier = T::from_i8(actual - prediction);
                    Ok(multiplier.times(self.learning_rate))
                },
                None => Err(PerceptronError::NotTrained(Asked::Prediction)),
            },
            None => Err(PerceptronError::NotTrained(Asked::Prediction)),
        }
    }

    /// What the perceptron has learned, if anything, is well formed.
    fn view_is_wf(&self)
        ensures
            self@.wf(),
    {
        if let Some(learned) = &self.learned {
            learned.view_is_wf();
        }
    }
}

} // verus!
