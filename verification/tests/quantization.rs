use mlx_rs::ops::quantization::{optional_int, DEFAULT_BITS, DEFAULT_GROUP_SIZE};
use mlx_rs::ops::{dequantize_device, matmul, quantize_device, quantized_matmul_device};
use mlx_rs::backend::DType;
use mlx_rs::Array;

fn zeros(shape: &[i32]) -> Array {
    let n: usize = shape.iter().map(|d| *d as usize).product();
    Array::from_slice(&vec![0.0_f32; n], shape, DType::F32)
}

fn packed(shape: &[i32]) -> Array {
    let n: usize = shape.iter().map(|d| *d as usize).product();
    Array::from_slice(&vec![0u32; n], shape, DType::U32)
}

#[test]
fn optional_int_takes_value_or_default() {
    assert_eq!(optional_int(Some(7), 64), 7);
    assert_eq!(optional_int(None, 64), 64);
    assert_eq!(DEFAULT_GROUP_SIZE, 64);
    assert_eq!(DEFAULT_BITS, 4);
}

#[test]
fn test_quantize_dequantize() {
    // ones([128, 1]) * expand_dims(arange(0, 512), 0): a [128, 512] matrix of f32.
    let x1 = zeros(&[128, 1]);
    let x2 = zeros(&[1, 512]);
    let x = mlx_rs::ops::add(&x1, &x2).unwrap();

    for i in [2, 4, 8].iter() {
        let el_per_int = 32 / i;
        let (x_q, scales, biases) = quantize_device(&x, Some(128), Some(*i)).unwrap();
        assert_eq!(x_q.shape(), [128, 512 / el_per_int]);
        assert_eq!(scales.shape(), [128, 4]);
        assert_eq!(biases.shape(), [128, 4]);

        let x_hat = dequantize_device(&x_q, &scales, Some(&biases), Some(128), Some(*i)).unwrap();
        assert_eq!(x_hat.shape(), x.shape());
        assert_eq!(x_hat.dtype(), DType::F32);
    }
}

#[test]
fn quantize_defaults() {
    let w = zeros(&[3, 256]);
    let (w_q, scales, biases) = quantize_device(&w, None, None).unwrap();
    // 4 bits: 8 elements per integer; groups of 64.
    assert_eq!(w_q.shape(), [3, 32]);
    assert_eq!(scales.shape(), [3, 4]);
    assert_eq!(biases.shape(), [3, 4]);
}

#[test]
fn quantize_odd_bit_widths() {
    let w = zeros(&[2, 4, 96]);
    let (w_q, scales, _) = quantize_device(&w, Some(32), Some(3)).unwrap();
    assert_eq!(w_q.shape(), [2, 4, 9]);
    assert_eq!(scales.shape(), [2, 4, 3]);
    let (w_q, _, _) = quantize_device(&w, Some(32), Some(6)).unwrap();
    assert_eq!(w_q.shape(), [2, 4, 18]);
}

#[test]
fn quantize_errors() {
    let w = zeros(&[4, 128]);
    let msg = |r: mlx_rs::error::Result<(Array, Array, Array)>| r.err().unwrap().what;
    assert_eq!(
        msg(quantize_device(&w, Some(48), None)),
        "[quantize] The requested group size is not supported. The supported group sizes are 32, 64, and 128."
    );
    assert_eq!(
        msg(quantize_device(&w, None, Some(7))),
        "[quantize] The requested number of bits is not supported. The supported bits are 2, 3, 4, 5, 6 and 8."
    );
    assert_eq!(
        msg(quantize_device(&zeros(&[128]), None, None)),
        "[quantize] The matrix must have at least 2 dimensions."
    );
    assert_eq!(
        msg(quantize_device(&zeros(&[4, 96]), Some(64), None)),
        "[quantize] The last dimension of the matrix needs to be divisible by the quantization group size."
    );
}

#[test]
fn dequantize_errors() {
    let w = zeros(&[4, 128]);
    let (w_q, scales, biases) = quantize_device(&w, None, None).unwrap();
    let msg = |r: mlx_rs::error::Result<Array>| r.err().unwrap().what;
    assert_eq!(
        msg(dequantize_device(&w_q, &scales, None, None, None)),
        "[dequantize] Biases must be provided for affine quantization."
    );
    assert_eq!(
        msg(dequantize_device(&w_q, &scales, Some(&zeros(&[4, 3])), None, None)),
        "[dequantize] Scales and biases should have the same shape."
    );
    assert_eq!(
        msg(dequantize_device(&packed(&[16]), &scales, Some(&biases), None, None)),
        "[dequantize] The matrix must have at least 2 dimensions."
    );
    assert_eq!(
        msg(dequantize_device(&packed(&[5, 16]), &scales, Some(&biases), None, None)),
        "[dequantize] Shape of scales and biases does not match the matrix."
    );
    // Unpacked with the wrong number of bits, the row length no longer matches the scales.
    assert_eq!(
        msg(dequantize_device(&w_q, &scales, Some(&biases), None, Some(8))),
        "[dequantize] The shape of scales and biases does not match the matrix given the quantization parameters."
    );
    assert_eq!(
        msg(dequantize_device(&w_q, &scales, Some(&biases), Some(16), None)),
        "[dequantize] The requested group size is not supported. The supported group sizes are 32, 64, and 128."
    );
    assert_eq!(
        msg(dequantize_device(&w_q, &scales, Some(&biases), None, Some(1))),
        "[dequantize] The requested number of bits is not supported. The supported bits are 2, 3, 4, 5, 6 and 8."
    );
}

#[test]
fn dequantize_too_large() {
    // A packed row of 2^30 integers of 4 bits holds 2^33 elements: more than i32 counts.
    let packed: i32 = 1 << 30;
    let groups: i32 = 1 << 27;
    let w_q = Array::from_slice(&vec![(); packed as usize], &[1, packed], DType::U32);
    let scales = Array::from_slice(&vec![(); groups as usize], &[1, groups], DType::F32);
    let e = dequantize_device(&w_q, &scales, Some(&scales), None, None).err().unwrap();
    assert_eq!(e.what, "[dequantize] The result has too many elements.");
}

#[test]
fn test_quantized_matmul() {
    let group_size = 64;
    let bits = 4;
    let m = 32;
    let n = 128;
    let k = 128;
    let x = zeros(&[m, k]);
    let w = zeros(&[k, n]);
    let (w_q, scales, biases) = quantize_device(&w, Some(group_size), Some(bits)).unwrap();
    let w_hat =
        dequantize_device(&w_q, &scales, Some(&biases), Some(group_size), Some(bits)).unwrap();
    let y_q = quantized_matmul_device(
        &x,
        &w_q,
        &scales,
        Some(&biases),
        Some(false),
        Some(group_size),
        Some(bits),
    )
    .unwrap();
    let y_hat = matmul(&x, &w_hat).unwrap();
    assert_eq!(y_q.shape(), y_hat.shape());
    assert_eq!(y_q.shape(), [32, 128]);
}

#[test]
fn quantized_matmul_transposed() {
    // The weights hold 64 output rows of 128 inputs; transposed, x [..., 128] maps to [..., 64].
    let w = zeros(&[64, 128]);
    let (w_q, scales, biases) = quantize_device(&w, None, None).unwrap();
    let x = zeros(&[5, 3, 128]);
    let y = quantized_matmul_device(&x, &w_q, &scales, Some(&biases), Some(true), None, None)
        .unwrap();
    assert_eq!(y.shape(), [5, 3, 64]);
    // Without transposing, the inner dimensions differ.
    let e = quantized_matmul_device(&x, &w_q, &scales, Some(&biases), None, None, None)
        .err()
        .unwrap();
    assert_eq!(
        e.what,
        "[quantized_matmul] Last dimension of first input must match second to last dimension of second input."
    );
}

#[test]
fn quantized_matmul_vector_input() {
    let w = zeros(&[64, 256]);
    let (w_q, scales, biases) = quantize_device(&w, Some(32), Some(8)).unwrap();
    let x = zeros(&[64]);
    let y = quantized_matmul_device(&x, &w_q, &scales, Some(&biases), None, Some(32), Some(8))
        .unwrap();
    assert_eq!(y.shape(), [256]);
    let e = quantized_matmul_device(&x, &w_q, &scales, None, None, Some(32), Some(8))
        .err()
        .unwrap();
    assert_eq!(e.what, "[quantized_matmul] Biases must be provided for affine quantization.");
}

#[test]
fn quantize_three_dimensional_weights() {
    // Weights for a batch of 3 matrices, as a gathered quantized product uses them.
    let w = zeros(&[3, 64, 64]);
    let (w_q, scales, biases) = quantize_device(&w, Some(64), Some(4)).unwrap();
    assert_eq!(w_q.shape(), [3, 64, 8]);
    assert_eq!(scales.shape(), [3, 64, 1]);
    assert_eq!(biases.shape(), [3, 64, 1]);
    let w_hat = dequantize_device(&w_q, &scales, Some(&biases), Some(64), Some(4)).unwrap();
    assert_eq!(w_hat.shape(), [3, 64, 64]);
    let x = zeros(&[1, 32, 64]);
    let y = quantized_matmul_device(&x, &w_q, &scales, Some(&biases), Some(true), Some(64), Some(4))
        .unwrap();
    assert_eq!(y.shape(), [3, 32, 64]);
}

#[test]
fn quantize_element_types() {
    let w = Array::from_slice(&vec![0u16; 4 * 64], &[4, 64], DType::F16);
    let (w_q, scales, biases) = quantize_device(&w, None, None).unwrap();
    assert_eq!(w_q.dtype(), DType::U32);
    assert_eq!(scales.dtype(), DType::F16);
    assert_eq!(biases.dtype(), DType::F16);
    let w_hat = dequantize_device(&w_q, &scales, Some(&biases), None, None).unwrap();
    assert_eq!(w_hat.dtype(), DType::F16);
    // F32 input with F16 scales and biases gives an F32 product.
    let x = zeros(&[2, 64]);
    let (w_q, scales, biases) = quantize_device(&Array::from_slice(&vec![0u16; 64 * 8], &[64, 8 * 8], DType::F16), None, None).unwrap();
    let y = quantized_matmul_device(&x, &w_q, &scales, Some(&biases), Some(true), None, None)
        .unwrap();
    assert_eq!(y.shape(), [2, 64]);
    assert_eq!(y.dtype(), DType::F32);
}

#[test]
fn quantize_refuses_non_floating() {
    let w = Array::from_slice(&vec![0i32; 4 * 64], &[4, 64], DType::I32);
    let e = quantize_device(&w, None, None).err().unwrap();
    assert_eq!(e.what, "[quantize] Only real floating types can be quantized.");
}

#[test]
fn dequantize_refuses_unpacked() {
    // A [1, 16] matrix of i32 with [1, 2] scales: the shapes fit 8 bits in groups of 32,
    // but the matrix is not of unsigned 32 bit integers.
    let w = Array::from_slice(&[0i32; 16], &[1, 16], DType::I32);
    let scales = zeros(&[1, 2]);
    let e = dequantize_device(&w, &scales, Some(&scales), Some(32), Some(8)).err().unwrap();
    assert_eq!(e.what, "[dequantize] The matrix should be given as a uint32.");
    let x = zeros(&[3, 64]);
    let e = quantized_matmul_device(&x, &w, &scales, Some(&scales), None, Some(32), Some(8))
        .err()
        .unwrap();
    assert_eq!(e.what, "[quantized_matmul] The matrix should be given as a uint32.");
    let packed = Array::from_slice(&[0u32; 16], &[1, 16], DType::U32);
    assert!(dequantize_device(&packed, &scales, Some(&scales), Some(32), Some(8)).is_ok());
}

#[test]
fn quantized_matmul_refuses_integer_inputs() {
    let w = zeros(&[8, 64]);
    let (w_q, scales, biases) = quantize_device(&w, None, None).unwrap();
    let x = Array::from_slice(&vec![0i32; 64], &[1, 64], DType::I32);
    let ints = Array::from_slice(&[0i32; 8], &[8, 1], DType::I32);
    let e = quantized_matmul_device(&x, &w_q, &ints, Some(&ints), Some(true), None, None)
        .err()
        .unwrap();
    assert_eq!(e.what, "[quantized_matmul] Only real floating point types are supported.");
    // Integer input with floating scales and biases is promoted to floating.
    let y = quantized_matmul_device(&x, &w_q, &scales, Some(&biases), Some(true), None, None)
        .unwrap();
    assert_eq!(y.dtype(), DType::F32);
}
