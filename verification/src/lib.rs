//! Verified core of the MLX bindings: array shapes and the shape rules of
//! operations, quantization parameters, memory-limit status handling and the
//! backend's capability and tensor descriptions.
use vstd::prelude::*;

pub mod array;
pub mod backend;
pub mod error;
pub mod memory;
pub mod ops;
pub mod shape;

pub use array::Array;

verus! {
}
