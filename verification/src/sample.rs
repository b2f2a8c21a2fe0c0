//! Labeled feature vectors.

use crate::scalar::Scalar;
use vstd::prelude::*;

verus! {

/// A feature vector together with the label of the class it belongs to.
pub struct Sample<T> {
    feature_vector: Vec<T>,
    label: String,
}

/// What a [`Sample`] holds.
pub struct SampleView<T> {
    pub features: Seq<T>,
    pub label: Seq<char>,
}

impl<T> View for Sample<T> {
    type V = SampleView<T>;

    closed spec fn view(&self) -> SampleView<T> {
        SampleView { features: self.feature_vector@, label: self.label@ }
    }
}

impl<T: Scalar> Clone for Sample<T> {
    /// A sample with the same features and the same label.
    fn clone(&self) -> (copy: Self)
        ensures
            copy@ == self@,
    {
        Sample { feature_vector: self.get_feature_vector(), label: self.label.clone() }
    }
}

impl<T: Scalar> Sample<T> {
    /// Makes a sample of the given features and label. Nothing is checked here: whether
    /// a set of samples can be trained on is decided when training starts.
    pub fn new(feature_vector: Vec<T>, label: &str) -> (sample: Self)
        ensures
            sample@.features == feature_vector@,
            sample@.label == label@,
    {
        Sample { feature_vector, label: label.to_owned() }
    }

    /// A copy of the features.
    pub fn get_feature_vector(&self) -> (features: Vec<T>)
        ensures
            features@ == self@.features,
    {
        let mut features: Vec<T> = Vec::new();
        let mut i: usize = 0;
        while i < self.feature_vector.len()
            invariant
                i <= self.feature_vector.len(),
                features@ == self.feature_vector@.take(i as int),
            decreases self.feature_vector.len() - i,
        {
            features.push(self.feature_vector[i]);
            i += 1;
        }
        features
    }

    /// The number of features.
    pub fn get_n_features(&self) -> (n: usize)
        ensures
            n == self@.features.len(),
    {
        self.feature_vector.len()
    }

    /// The label.
    pub fn get_label(&self) -> (label: &str)
        ensures
            label@ == self@.label,
    {
        self.label.as_str()
    }

    /// The label, as it is kept.
    pub(crate) fn label_string(&self) -> (label: &String)
        ensures
            label@ == self@.label,
    {
        &self.label
    }

    /// Whether `other` carries the same label.
    pub(crate) fn same_label(&self, other: &Sample<T>) -> (same: bool)
        ensures
            same == (self@.label == other@.label),
    {
        self.label == other.label
    }

    /// The features, borrowed.
    pub fn get_feature_vector_as_ref(&self) -> (features: &Vec<T>)
        ensures
            features@ == self@.features,
    {
        &self.feature_vector
    }
}

} // verus!
