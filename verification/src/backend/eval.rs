//! Evaluation of lazy arrays, as the backend reports it.
//!
//! The runtime evaluates the arrays; the functions here take its outcome and
//! report it as the backend's result.
use vstd::prelude::*;

use super::dtype::DType;
use super::error::{MlxError, MlxResult};
use crate::error::Exception;

verus! {

/// Reports the evaluation of one array: success, or the runtime's message as an
/// evaluation failure.
pub fn eval_array(evaluation: core::result::Result<(), Exception>) -> (r: MlxResult<()>)
    ensures
        r is Ok <==> evaluation is Ok,
        evaluation matches Err(e) ==> r matches Err(MlxError::EvaluationFailed(m)) && m@ == e.what@,
{
    match evaluation {
        Ok(()) => Ok(()),
        Err(e) => Err(MlxError::EvaluationFailed(e.what)),
    }
}

/// Reports the evaluation of several arrays together: success, or the
/// runtime's message as an evaluation failure.
pub fn eval_arrays(evaluation: core::result::Result<(), Exception>) -> (r: MlxResult<()>)
    ensures
        r is Ok <==> evaluation is Ok,
        evaluation matches Err(e) ==> r matches Err(MlxError::EvaluationFailed(m)) && m@ == e.what@,
{
    match evaluation {
        Ok(()) => Ok(()),
        Err(e) => Err(MlxError::EvaluationFailed(e.what)),
    }
}

/// Decides whether an array can be read back as 32 bit floats: its evaluation
/// must have succeeded and its element type must be `F32`.
pub fn check_readback_f32(evaluation: core::result::Result<(), Exception>, dtype: DType) -> (r:
    MlxResult<()>)
    ensures
        r is Ok <==> evaluation is Ok && dtype == DType::F32,
        evaluation matches Err(e) ==> r matches Err(MlxError::EvaluationFailed(m)) && m@ == e.what@,
        evaluation is Ok && dtype != DType::F32 ==> r == Err::<(), MlxError>(MlxError::UnsupportedDType),
{
    match evaluation {
        Err(e) => Err(MlxError::EvaluationFailed(e.what)),
        Ok(()) => {
            if dtype != DType::F32 {
                return Err(MlxError::UnsupportedDType);
            }
            Ok(())
        },
    }
}

} // verus!
