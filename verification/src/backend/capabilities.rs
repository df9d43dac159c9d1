//! Records of what the backend supports.
use vstd::prelude::*;

use super::dtype::DType;

verus! {

/// How far an operation is supported.
#[derive(Clone, Copy, Debug, PartialEq, Eq, Structural)]
pub enum SupportStatus {
    Supported,
    PartiallySupported,
    Unsupported,
    Unknown,
}

/// How an operation is implemented.
#[derive(Clone, Copy, Debug, PartialEq, Eq, Structural)]
pub enum ImplementationKind {
    NativeMlx,
    ComposedMlx,
    RustReference,
    MetadataOnly,
    Unsupported,
    Unknown,
}

/// What the backend offers for one operation.
#[derive(Clone, Debug, PartialEq, Eq)]
pub struct OperationEntry {
    pub name: String,
    pub support_status: SupportStatus,
    pub implementation_kind: ImplementationKind,
    pub supported_dtypes: Vec<DType>,
    pub shape_notes: Option<String>,
    pub limitations: Option<String>,
}

/// The platform the backend runs on.
#[derive(Clone, Debug, PartialEq, Eq)]
pub struct PlatformSummary {
    pub os: String,
    pub architecture: String,
    pub is_apple: bool,
    pub is_apple_silicon: bool,
    pub metal_available: Option<bool>,
}

/// Everything the backend reports about itself.
#[derive(Clone, Debug, PartialEq, Eq)]
pub struct MlxBackendCapabilities {
    pub schema_version: String,
    pub crate_version: String,
    pub git_commit_hash: Option<String>,
    pub enabled_features: Vec<String>,
    pub platform: PlatformSummary,
    pub mlx_runtime_version: Option<String>,
    pub supported_dtypes: Vec<DType>,
    pub supported_devices: Vec<String>,
    pub supported_operations: Vec<OperationEntry>,
    pub known_limitations: Vec<String>,
}

} // verus!
