//! A binary linear classifier trained with the perceptron learning rule.
//!
//! A [`Perceptron`] learns one weight for each feature and a bias from [`Sample`]s of two
//! classes, and then puts new samples in one of the two. The numbers it computes with are
//! any [`Scalar`]; [`Dot`] is the inner product that prediction and training share.
//!
//! Every function states what it returns and changes. The contracts speak of the views
//! in [`model`], which also says what one update, one epoch and a whole training run
//! compute; [`validation`] says which samples can be trained on, [`encoding`] how the two
//! labels get their codes, and [`laws`] holds what is proved of every training run.

pub mod dot;
pub mod encoding;
pub mod error;
pub mod laws;
pub mod model;
pub mod perceptron;
pub mod sample;
pub mod scalar;
mod signals;
pub mod validation;

pub use dot::Dot;
pub use encoding::LabelEncoding;
pub use error::{Asked, Flaw, PerceptronError};
pub use perceptron::Perceptron;
pub use sample::Sample;
pub use scalar::Scalar;
