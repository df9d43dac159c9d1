//! Operations on arrays, by their shape rules.
pub mod broadcast;
pub mod matmul;
pub mod quantization;
pub mod reshape;

pub use broadcast::add;
pub use matmul::matmul;
pub use quantization::{dequantize_device, quantize_device, quantized_matmul_device};
pub use reshape::reshape;
