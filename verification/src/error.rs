//! The ways in which an operation on a perceptron ends without its result.

use pyo3::PyErr;
use vstd::prelude::*;

verus! {

/// What is wrong with a set of samples that cannot be trained on.
#[derive(Clone, Copy, Debug, PartialEq, Eq)]
pub enum Flaw {
    /// The samples do not carry exactly two distinct labels.
    LabelCount,
    /// The feature vectors of the samples differ in length.
    FeatureLength,
}

/// What was asked of a perceptron that has not been trained yet.
#[derive(Clone, Copy, Debug, PartialEq, Eq)]
pub enum Asked {
    /// The class of a sample.
    Prediction,
    /// The weights.
    Weights,
    /// The bias.
    Bias,
}

/// Why an operation on a perceptron ended without its result.
#[derive(Debug)]
pub enum PerceptronError {
    /// The samples handed to a training run are unfit; nothing was changed.
    Configuration(Flaw),
    /// The operation needs parameters that only training provides.
    NotTrained(Asked),
    /// Training was stopped between two epochs by a signal to the interpreter, whose
    /// handler raised the exception given. The epochs completed before are kept.
    Cancelled(PyErr),
}

impl Flaw {
    /// The characters of the text that describes the flaw.
    pub open spec fn spec_message(self) -> Seq<char> {
        match self {
            Flaw::LabelCount => {
                "there must be exactly two values of 'label' across all samples"@
            },
            Flaw::FeatureLength => "all tensors in 'samples' must have the same length"@,
        }
    }

    /// The text that describes the flaw to the caller.
    pub fn message(self) -> (text: &'static str)
        ensures
            text@ == self.spec_message(),
    {
        match self {
            Flaw::LabelCount => "there must be exactly two values of 'label' across all samples",
            Flaw::FeatureLength => "all tensors in 'samples' must have the same length",
        }
    }
}

impl Asked {
    /// The characters of the text that tells the caller to train first.
    pub open spec fn spec_message(self) -> Seq<char> {
        match self {
            Asked::Prediction => ".train() must be called before predicting"@,
            Asked::Weights => ".train() must be called before 'weights' can be accessed"@,
            Asked::Bias => ".train() must be called before 'bias' can be accessed"@,
        }
    }

    /// The text that tells the caller to train first.
    pub fn message(self) -> (text: &'static str)
        ensures
            text@ == self.spec_message(),
    {
        match self {
            Asked::Prediction => ".train() must be called before predicting",
            Asked::Weights => ".train() must be called before 'weights' can be accessed",
            Asked::Bias => ".train() must be called before 'bias' can be accessed",
        }
    }
}

} // verus!
