# mlx_rs

The verified core of Rust bindings to the MLX array runtime.

MLX builds a lazy computation graph: an operation checks its operands'
shapes and gives the shape of its result at once; the values are computed
when an array is evaluated. This crate proves the part that decides, and
leaves the computing to the runtime.

- `src/shape.rs` – shapes as sequences of `i32` dimensions, their element
  counts, and the lemmas about them.
- `src/array.rs` – `Array`, an array of the graph known by its shape and
  element type.
- `src/backend/dtype.rs` – element types and how two of them combine.
- `src/ops/` – the rules of `add` (broadcasting), `matmul`, `reshape` and of
  affine quantization (`quantize_device`, `dequantize_device`,
  `quantized_matmul_device`) on shapes and element types: when an operation
  is refused, in which order its checks run, the result's shape and element
  type, and the laws that relate them. The messages of the refusals are this
  library's own; they do not carry the operands' shapes.
- `src/memory.rs` – how the answers of the runtime's memory-limit calls are
  reported.
- `src/backend/` – element types, tensor descriptions and their validation,
  capability records, and how evaluation outcomes are reported.
- `app/` – the calls into the mlx-c library, whose own error messages are
  passed through, the handler that captures them, and serde forms of the
  capability records.
- `tests/` – tests of the library on concrete values.
