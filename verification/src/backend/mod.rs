//! The backend layer: element types, tensor descriptions, capability records,
//! errors and evaluation outcomes.
pub mod capabilities;
pub mod dtype;
pub mod error;
pub mod eval;
pub mod tensor;

pub use capabilities::{ImplementationKind, MlxBackendCapabilities, SupportStatus};
pub use dtype::DType;
pub use error::{MlxError, MlxResult};
pub use eval::{check_readback_f32, eval_array, eval_arrays};
pub use tensor::{DevicePreference, TensorLayout, TensorSpec};
