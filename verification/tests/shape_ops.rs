use mlx_rs::ops::{add, matmul, reshape};
use mlx_rs::backend::DType;
use mlx_rs::Array;

fn zeros(shape: &[i32]) -> Array {
    let n: i32 = shape.iter().product();
    let data = vec![0.0_f32; n as usize];
    Array::from_slice(&data, shape, DType::F32)
}

#[test]
fn from_slice_keeps_shape() {
    let a = Array::from_slice(&[1, 2, 3, 4, 5, 6], &[2, 3], DType::I32);
    assert_eq!(a.shape(), &[2, 3]);
    assert_eq!(a.ndim(), 2);
    assert_eq!(a.size(), 6);
    assert_eq!(a.dtype(), DType::I32);
    let s = Array::from_slice(&[7_u8], &[], DType::U8);
    assert_eq!(s.ndim(), 0);
    assert_eq!(s.size(), 1);
}

#[test]
fn add_broadcasts() {
    let a = zeros(&[4, 1, 3]);
    let b = zeros(&[5, 1]);
    let c = add(&a, &b).unwrap();
    assert_eq!(c.shape(), &[4, 5, 3]);
    // The same shape in the other order.
    let d = add(&b, &a).unwrap();
    assert_eq!(d.shape(), &[4, 5, 3]);
}

#[test]
fn add_same_shape_keeps_it() {
    let a = zeros(&[2, 3]);
    assert_eq!(add(&a, &a).unwrap().shape(), &[2, 3]);
}

#[test]
fn add_scalar_and_zero_dimension() {
    let s = zeros(&[]);
    let a = zeros(&[0, 3]);
    assert_eq!(add(&s, &a).unwrap().shape(), &[0, 3]);
    let one = zeros(&[1]);
    assert_eq!(add(&a, &one).unwrap().shape(), &[0, 3]);
}

#[test]
fn add_error_message() {
    let a = zeros(&[2]);
    let b = zeros(&[3]);
    let e = add(&a, &b).err().unwrap();
    assert_eq!(e.what(), "[broadcast_shapes] Shapes cannot be broadcast.");
}

#[test]
fn matmul_shapes() {
    let a = zeros(&[2, 3]);
    let b = zeros(&[3, 4]);
    assert_eq!(matmul(&a, &b).unwrap().shape(), &[2, 4]);
    let batched = zeros(&[5, 1, 2, 3]);
    let rhs = zeros(&[7, 3, 4]);
    assert_eq!(matmul(&batched, &rhs).unwrap().shape(), &[5, 7, 2, 4]);
}

#[test]
fn matmul_vectors() {
    let v = zeros(&[3]);
    let m = zeros(&[3, 4]);
    assert_eq!(matmul(&v, &m).unwrap().shape(), &[4]);
    let n = zeros(&[2, 3]);
    assert_eq!(matmul(&n, &v).unwrap().shape(), &[2]);
    let dot = matmul(&v, &v).unwrap();
    assert_eq!(dot.ndim(), 0);
}

#[test]
fn matmul_errors() {
    let s = zeros(&[]);
    let m = zeros(&[2, 2]);
    assert_eq!(
        matmul(&s, &m).err().unwrap().what(),
        "[matmul] Got 0 dimension input. Inputs must have at least one dimension."
    );
    let a = zeros(&[2, 1]);
    let b = zeros(&[3, 1]);
    assert_eq!(
        matmul(&a, &b).err().unwrap().what(),
        "[matmul] Last dimension of first input must match second to last dimension of second input."
    );
    let c = zeros(&[2, 2, 3]);
    let d = zeros(&[3, 3, 4]);
    assert_eq!(
        matmul(&c, &d).err().unwrap().what(),
        "[matmul] The batch dimensions of the inputs cannot be broadcast."
    );
}

#[test]
fn reshape_shapes() {
    let a = zeros(&[2, 3, 4]);
    assert_eq!(reshape(&a, &[6, 4]).unwrap().shape(), &[6, 4]);
    assert_eq!(reshape(&a, &[4, -1]).unwrap().shape(), &[4, 6]);
    assert_eq!(reshape(&a, &[-1]).unwrap().shape(), &[24]);
    assert_eq!(reshape(&a, &[2, 3, 4]).unwrap().shape(), &[2, 3, 4]);
}

#[test]
fn reshape_empty() {
    let a = zeros(&[0, 3]);
    assert_eq!(reshape(&a, &[3, 0]).unwrap().shape(), &[3, 0]);
    assert_eq!(reshape(&a, &[-1, 3]).unwrap().shape(), &[0, 3]);
    assert_eq!(
        reshape(&a, &[0, -1]).err().unwrap().what(),
        "[reshape] Cannot infer the shape of an empty array."
    );
}

#[test]
fn reshape_errors() {
    let a = zeros(&[2, 3]);
    assert_eq!(
        reshape(&a, &[-2, 3]).err().unwrap().what(),
        "[reshape] Invalid negative dimension."
    );
    assert_eq!(
        reshape(&a, &[-1, -1]).err().unwrap().what(),
        "[reshape] Reshape can only infer one dimension."
    );
    assert_eq!(
        reshape(&a, &[4, -1]).err().unwrap().what(),
        "[reshape] Cannot reshape array into the requested shape."
    );
    assert_eq!(
        reshape(&a, &[7]).err().unwrap().what(),
        "[reshape] Cannot reshape array into the requested shape."
    );
}

fn unit_array(shape: &[i32]) -> Array {
    // Elements of a zero-sized type: any element count, no memory.
    let n: usize = shape.iter().map(|d| *d as usize).product();
    Array::from_slice(&vec![(); n], shape, DType::F32)
}

#[test]
fn reshape_inferred_too_large() {
    let a = unit_array(&[65536, 65536]);
    assert_eq!(
        reshape(&a, &[-1]).err().unwrap().what(),
        "[reshape] The inferred dimension is too large."
    );
    assert_eq!(reshape(&a, &[65536, -1]).unwrap().shape(), &[65536, 65536]);
}

#[test]
fn add_result_too_large() {
    let h = i32::MAX;
    let a = unit_array(&[h, 1, h]);
    let b = unit_array(&[1, h, 1]);
    assert_eq!(
        add(&a, &b).err().unwrap().what(),
        "[broadcast_shapes] The broadcast shape has too many elements."
    );
}

#[test]
fn matmul_result_too_large() {
    let h = i32::MAX;
    let a = unit_array(&[h, 1, h, 1]);
    let b = unit_array(&[1, h, 1, h]);
    assert_eq!(
        matmul(&a, &b).err().unwrap().what(),
        "[matmul] The result has too many elements."
    );
}

#[test]
fn with_shape_checks_the_shape() {
    assert_eq!(Array::with_shape(&[2, 3], DType::F32).unwrap().shape(), &[2, 3]);
    assert!(Array::with_shape(&[2, -1], DType::F32).is_none());
    assert!(Array::with_shape(&[i32::MAX, i32::MAX, i32::MAX], DType::F32).is_none());
    assert_eq!(Array::with_shape(&[i32::MAX, 0, i32::MAX], DType::F32).unwrap().size(), 0);
}

#[test]
fn element_types_combine() {
    let f16 = Array::from_slice(&[0u16; 2], &[2], DType::F16);
    let i8s = Array::from_slice(&[0i8; 2], &[2], DType::I8);
    let u8s = Array::from_slice(&[0u8; 2], &[2], DType::U8);
    let bf16 = Array::from_slice(&[0u16; 2], &[2], DType::BF16);
    assert_eq!(add(&f16, &i8s).unwrap().dtype(), DType::F16);
    assert_eq!(add(&u8s, &i8s).unwrap().dtype(), DType::I16);
    assert_eq!(add(&i8s, &u8s).unwrap().dtype(), DType::I16);
    assert_eq!(add(&f16, &bf16).unwrap().dtype(), DType::F32);
    assert_eq!(reshape(&u8s, &[1, 2]).unwrap().dtype(), DType::U8);
}

#[test]
fn matmul_needs_floating_types() {
    let a = Array::from_slice(&[0i32; 6], &[2, 3], DType::I32);
    let b = Array::from_slice(&[0i32; 12], &[3, 4], DType::I32);
    assert_eq!(
        matmul(&a, &b).err().unwrap().what(),
        "[matmul] Only real floating point types are supported."
    );
    let f = zeros(&[3, 4]);
    let c = matmul(&a, &f).unwrap();
    assert_eq!(c.dtype(), DType::F32);
    assert_eq!(c.shape(), &[2, 4]);
}
