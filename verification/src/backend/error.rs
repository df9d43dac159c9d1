//! Errors of the backend layer.
use vstd::prelude::*;

verus! {

/// An error of the backend layer.
#[derive(Clone, Debug, PartialEq, Eq)]
pub enum MlxError {
    /// Evaluating an array failed; the runtime's message.
    EvaluationFailed(String),
    /// The array does not have the element type asked for.
    UnsupportedDType,
    /// A dimension of a tensor description is not positive.
    InvalidDimension { axis: usize, size: i32 },
}

/// The result of an operation of the backend layer.
pub type MlxResult<T> = core::result::Result<T, MlxError>;

} // verus!
