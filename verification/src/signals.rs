//! The signals of the Python interpreter, polled before each epoch of a training run.

use vstd::prelude::*;

verus! {

/// `pyo3::PyErr`, a Python exception. The library hands it on and never looks into it.
#[verifier::external_type_specification]
#[verifier::external_body]
pub struct ExPyErr(pyo3::PyErr);

/// Lets the Python interpreter run its pending signal handlers, with
/// `pyo3::Python::try_attach` and, once attached, `pyo3::Python::check_signals`.
///
/// The answer is `None` where this thread cannot attach to an interpreter (none was
/// started, or it is shutting down), `Some(Ok(()))` where no handler raised anything,
/// and `Some(Err(e))` where a handler raised the exception `e`, as an interrupt from
/// the keyboard does by default. Which of these comes back depends on the signals that
/// the process has received, so nothing is claimed of it. A panic that a handler
/// carries over from other code written with pyo3 is resumed by `check_signals`.
#[verifier::external_body]
pub(crate) fn check_signals() -> (polled: Option<Result<(), pyo3::PyErr>>)
{
    pyo3::Python::try_attach(|py| py.check_signals())
}

} // verus!
