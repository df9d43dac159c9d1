//! Descriptions of tensors: element type, shape, layout and device.
use vstd::prelude::*;

use super::dtype::DType;
use super::error::{MlxError, MlxResult};

verus! {

/// Where a tensor should live.
#[derive(Clone, Copy, Debug, PartialEq, Eq, Structural)]
pub enum DevicePreference {
    /// The runtime's default device.
    Default,
    Cpu,
    Gpu,
}

/// How a tensor's elements are laid out.
#[derive(Clone, Copy, Debug, PartialEq, Eq, Structural)]
pub enum TensorLayout {
    /// Contiguous, in row-major order.
    Dense,
}

/// A description of a tensor.
#[derive(Clone, Debug, PartialEq, Eq)]
pub struct TensorSpec {
    pub dtype: DType,
    pub shape: Vec<i32>,
    pub layout: TensorLayout,
    pub device: DevicePreference,
}

/// Every dimension of `s` is positive.
pub open spec fn dims_positive(s: Seq<i32>) -> bool {
    forall|i: int| 0 <= i < s.len() ==> s[i] > 0
}

/// The first axis of `s` whose dimension is not positive.
pub open spec fn first_invalid_axis(s: Seq<i32>) -> int {
    choose|i: int|
        0 <= i < s.len() && s[i] <= 0 && forall|j: int| 0 <= j < i ==> s[j] > 0
}

impl TensorSpec {
    /// A dense tensor of the given element type and shape on the given device.
    pub fn dense(dtype: DType, shape: Vec<i32>, device: DevicePreference) -> (r: TensorSpec)
        ensures
            r.dtype == dtype,
            r.shape@ == shape@,
            r.layout == TensorLayout::Dense,
            r.device == device,
    {
        TensorSpec { dtype, shape, layout: TensorLayout::Dense, device }
    }

    /// Checks that every dimension is positive; otherwise reports the first axis
    /// whose dimension is not, with that dimension.
    pub fn validate(&self) -> (r: MlxResult<()>)
        ensures
            r is Ok <==> dims_positive(self.shape@),
            r matches Err(e) ==> e == (MlxError::InvalidDimension {
                axis: first_invalid_axis(self.shape@) as usize,
                size: self.shape@[first_invalid_axis(self.shape@)],
            }),
    {
        let mut i: usize = 0;
        while i < self.shape.len()
            invariant
                i <= self.shape@.len(),
                forall|j: int| 0 <= j < i ==> self.shape@[j] > 0,
            decreases self.shape@.len() - i,
        {
            if self.shape[i] <= 0 {
                let ghost k = first_invalid_axis(self.shape@);
                assert(0 <= k < self.shape@.len() && self.shape@[k] <= 0 && forall|j: int|
                    0 <= j < k ==> self.shape@[j] > 0) by {
                    assert(0 <= i < self.shape@.len() && self.shape@[i as int] <= 0 && forall|j: int|
                        0 <= j < i ==> self.shape@[j] > 0);
                }
                assert(k == i) by {
                    if k < i {
                        assert(self.shape@[k] > 0);
                    } else if k > i {
                        assert(self.shape@[i as int] > 0);
                    }
                }
                return Err(MlxError::InvalidDimension { axis: i, size: self.shape[i] });
            }
            i = i + 1;
        }
        Ok(())
    }
}

} // verus!
