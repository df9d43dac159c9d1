use mlx_rs::backend::{DType, DevicePreference, TensorSpec};

#[test]
fn test_tensor_spec_validation() {
    let valid_spec = TensorSpec::dense(DType::F32, vec![2, 3], DevicePreference::Default);
    assert!(valid_spec.validate().is_ok());

    let invalid_spec = TensorSpec::dense(DType::F32, vec![2, 0, 3], DevicePreference::Default);
    assert!(invalid_spec.validate().is_err());
}

#[test]
fn test_negative_invalid_shape_add() {
    let a = mlx_rs::Array::from_slice(&[1.0_f32, 2.0], &[2], DType::F32);
    let b = mlx_rs::Array::from_slice(&[1.0_f32, 2.0, 3.0], &[3], DType::F32);
    let res = mlx_rs::ops::add(&a, &b);
    assert!(res.is_err());
}

#[test]
fn test_negative_invalid_shape_matmul() {
    let a = mlx_rs::Array::from_slice(&[1.0_f32, 2.0], &[2, 1], DType::F32);
    let b = mlx_rs::Array::from_slice(&[1.0_f32, 2.0, 3.0], &[3, 1], DType::F32);
    let res = mlx_rs::ops::matmul(&a, &b);
    assert!(res.is_err());
}

#[test]
fn test_negative_reshape_element_count() {
    let a = mlx_rs::Array::from_slice(&[1.0_f32, 2.0], &[2], DType::F32);
    let res = mlx_rs::ops::reshape(&a, &[3]);
    assert!(res.is_err());
}
