use mlx_rs::backend::capabilities::{OperationEntry, PlatformSummary};
use mlx_rs::backend::{
    check_readback_f32, eval_array, eval_arrays, DType, DevicePreference, ImplementationKind,
    MlxBackendCapabilities, MlxError, SupportStatus, TensorLayout, TensorSpec,
};
use mlx_rs::backend::dtype::promote;
use mlx_rs::error::Exception;

#[test]
fn capabilities_record() {
    let caps = MlxBackendCapabilities {
        schema_version: "tribunus.mlx.backend_capabilities.v0".into(),
        crate_version: "0.1.0".into(),
        git_commit_hash: None,
        enabled_features: vec![],
        platform: PlatformSummary {
            os: "test".into(),
            architecture: "test".into(),
            is_apple: false,
            is_apple_silicon: false,
            metal_available: None,
        },
        mlx_runtime_version: None,
        supported_dtypes: vec![DType::F32],
        supported_devices: vec!["CPU".into()],
        supported_operations: vec![OperationEntry {
            name: "add".into(),
            support_status: SupportStatus::Supported,
            implementation_kind: ImplementationKind::NativeMlx,
            supported_dtypes: vec![DType::F32],
            shape_notes: None,
            limitations: None,
        }],
        known_limitations: vec![],
    };
    let copy = caps.clone();
    assert_eq!(copy, caps);
    assert_eq!(caps.supported_operations[0].support_status, SupportStatus::Supported);
    assert_ne!(SupportStatus::Unknown, SupportStatus::Supported);
}

#[test]
fn tensor_spec_dense() {
    let spec = TensorSpec::dense(DType::BF16, vec![4, 8], DevicePreference::Gpu);
    assert_eq!(spec.dtype, DType::BF16);
    assert_eq!(spec.shape, vec![4, 8]);
    assert_eq!(spec.layout, TensorLayout::Dense);
    assert_eq!(spec.device, DevicePreference::Gpu);
}

#[test]
fn tensor_spec_reports_first_invalid_axis() {
    let spec = TensorSpec::dense(DType::F32, vec![2, 0, -3], DevicePreference::Default);
    assert_eq!(spec.validate(), Err(MlxError::InvalidDimension { axis: 1, size: 0 }));
    let spec = TensorSpec::dense(DType::F32, vec![-1], DevicePreference::Cpu);
    assert_eq!(spec.validate(), Err(MlxError::InvalidDimension { axis: 0, size: -1 }));
    let scalar = TensorSpec::dense(DType::I32, vec![], DevicePreference::Default);
    assert_eq!(scalar.validate(), Ok(()));
}

#[test]
fn evaluation_failures_keep_the_message() {
    assert_eq!(eval_array(Ok(())), Ok(()));
    assert_eq!(
        eval_array(Err(Exception::new("out of memory"))),
        Err(MlxError::EvaluationFailed("out of memory".to_string()))
    );
    assert_eq!(eval_arrays(Ok(())), Ok(()));
    assert_eq!(
        eval_arrays(Err(Exception::new("bad graph"))),
        Err(MlxError::EvaluationFailed("bad graph".to_string()))
    );
}

#[test]
fn readback_needs_success_and_f32() {
    assert_eq!(check_readback_f32(Ok(()), DType::F32), Ok(()));
    assert_eq!(check_readback_f32(Ok(()), DType::F16), Err(MlxError::UnsupportedDType));
    assert_eq!(
        check_readback_f32(Err(Exception::new("failed")), DType::F16),
        Err(MlxError::EvaluationFailed("failed".to_string()))
    );
}

#[test]
fn promotion_table() {
    assert_eq!(promote(DType::Bool, DType::I32), DType::I32);
    assert_eq!(promote(DType::U8, DType::I8), DType::I16);
    assert_eq!(promote(DType::U16, DType::I8), DType::I32);
    assert_eq!(promote(DType::U32, DType::I64), DType::I64);
    assert_eq!(promote(DType::U64, DType::I8), DType::F32);
    assert_eq!(promote(DType::U16, DType::U32), DType::U32);
    assert_eq!(promote(DType::I64, DType::F16), DType::F16);
    assert_eq!(promote(DType::BF16, DType::U64), DType::BF16);
    assert_eq!(promote(DType::F16, DType::BF16), DType::F32);
    assert_eq!(promote(DType::F64, DType::F32), DType::F64);
    assert_eq!(promote(DType::F64, DType::C64), DType::C64);
    assert_eq!(promote(DType::F32, DType::F32), DType::F32);
}
