//! GPU memory management: how the results of the runtime's memory-limit calls
//! are reported.
//!
//! The memory limit is global state of the active device's allocator, which
//! on Apple Silicon is the unified-memory Metal allocator. The runtime reads
//! and sets it and answers with a status code; a failing call may leave an
//! error message behind. The functions here turn that answer into a result.
use vstd::prelude::*;

use crate::error::{Exception, Result};

verus! {

/// The message reported when reading the limit fails without an error message.
pub open spec fn get_limit_fallback() -> Seq<char> {
    "mlx_get_memory_limit failed without setting an error"@
}

/// The message reported when setting the limit fails without an error message.
pub open spec fn set_limit_fallback() -> Seq<char> {
    "mlx_set_memory_limit failed without setting an error"@
}

/// The error to report after a failed call: the runtime's pending message, or
/// `fallback_msg` where it left none.
pub fn last_error_or_unknown(last_error: Option<String>, fallback_msg: &str) -> (e: Exception)
    ensures
        e.what@ == (match last_error {
            Some(m) => m@,
            None => fallback_msg@,
        }),
{
    match last_error {
        Some(what) => Exception { what },
        None => Exception::new(fallback_msg),
    }
}

/// The result of reading the memory limit, in bytes: the limit the runtime
/// gave where its status is 0, else the error it left (or a fallback message).
pub fn get_memory_limit_result(status: i32, current: usize, last_error: Option<String>) -> (r:
    Result<usize>)
    ensures
        r is Ok <==> status == 0,
        r matches Ok(v) ==> v == current,
        r matches Err(e) ==> e.what@ == (match last_error {
            Some(m) => m@,
            None => get_limit_fallback(),
        }),
{
    if status != 0 {
        return Err(
            last_error_or_unknown(last_error, "mlx_get_memory_limit failed without setting an error"),
        );
    }
    Ok(current)
}

/// The result of setting the memory limit: the previous limit, in bytes, the
/// runtime gave where its status is 0, else the error it left (or a fallback
/// message).
pub fn set_memory_limit_result(status: i32, previous: usize, last_error: Option<String>) -> (r:
    Result<usize>)
    ensures
        r is Ok <==> status == 0,
        r matches Ok(v) ==> v == previous,
        r matches Err(e) ==> e.what@ == (match last_error {
            Some(m) => m@,
            None => set_limit_fallback(),
        }),
{
    if status != 0 {
        return Err(
            last_error_or_unknown(last_error, "mlx_set_memory_limit failed without setting an error"),
        );
    }
    Ok(previous)
}

} // verus!
