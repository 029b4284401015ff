//! Error taxonomy shared by all analyzers.
//!
//! Recoverable per-file conditions are represented by `Err` values and never
//! panic; callers decide whether to skip or abort.

use vstd::prelude::*;

verus! {

/// Everything that can go wrong in the crate.
#[derive(Debug, Clone)]
pub enum DiskTidyError {
    SystemInfoFailed(String),
    DiskInfoFailed(String),
    ScanNotFound(String),
    ScanAlreadyRunning,
    ScanPathInvalid(String),
    ScanPermissionDenied(String),
    CleanFileNotFound(String),
    CleanPermissionDenied(String),
    CleanFileInUse(String),
    CleanProtectedFile(String),
    SettingsLoadFailed(String),
    SettingsSaveFailed(String),
    IoError(String),
    PermissionDenied { path: String },
    FileNotFound { path: String },
    FileInUse { path: String },
    ProtectedPath { path: String },
    HashCalculationFailed { path: String },
    HashCalculationTimeout { path: String },
    InvalidParameter { message: String },
    SystemCallFailed { api: String, message: String },
    ConfigError { message: String },
    Unknown(String),
}

impl DiskTidyError {
    /// The stable short code of this error kind.
    pub open spec fn spec_error_code(&self) -> Seq<char> {
        match self {
            Self::SystemInfoFailed(_) => "E001"@,
            Self::DiskInfoFailed(_) => "E002"@,
            Self::ScanNotFound(_) => "E003"@,
            Self::ScanAlreadyRunning => "E004"@,
            Self::ScanPathInvalid(_) => "E005"@,
            Self::ScanPermissionDenied(_) => "E006"@,
            Self::CleanFileNotFound(_) => "E007"@,
            Self::CleanPermissionDenied(_) => "E008"@,
            Self::CleanFileInUse(_) => "E009"@,
            Self::CleanProtectedFile(_) => "E010"@,
            Self::SettingsLoadFailed(_) => "E011"@,
            Self::SettingsSaveFailed(_) => "E012"@,
            Self::IoError(_) => "E013"@,
            Self::PermissionDenied { .. } => "E014"@,
            Self::FileNotFound { .. } => "E015"@,
            Self::FileInUse { .. } => "E016"@,
            Self::ProtectedPath { .. } => "E017"@,
            Self::HashCalculationFailed { .. } => "E018"@,
            Self::HashCalculationTimeout { .. } => "E022"@,
            Self::InvalidParameter { .. } => "E019"@,
            Self::SystemCallFailed { .. } => "E020"@,
            Self::ConfigError { .. } => "E021"@,
            Self::Unknown(_) => "E999"@,
        }
    }

    pub fn error_code(&self) -> (r: &'static str)
        ensures
            r@ == self.spec_error_code(),
    {
        match self {
            Self::SystemInfoFailed(_) => "E001",
            Self::DiskInfoFailed(_) => "E002",
            Self::ScanNotFound(_) => "E003",
            Self::ScanAlreadyRunning => "E004",
            Self::ScanPathInvalid(_) => "E005",
            Self::ScanPermissionDenied(_) => "E006",
            Self::CleanFileNotFound(_) => "E007",
            Self::CleanPermissionDenied(_) => "E008",
            Self::CleanFileInUse(_) => "E009",
            Self::CleanProtectedFile(_) => "E010",
            Self::SettingsLoadFailed(_) => "E011",
            Self::SettingsSaveFailed(_) => "E012",
            Self::IoError(_) => "E013",
            Self::PermissionDenied { .. } => "E014",
            Self::FileNotFound { .. } => "E015",
            Self::FileInUse { .. } => "E016",
            Self::ProtectedPath { .. } => "E017",
            Self::HashCalculationFailed { .. } => "E018",
            Self::HashCalculationTimeout { .. } => "E022",
            Self::InvalidParameter { .. } => "E019",
            Self::SystemCallFailed { .. } => "E020",
            Self::ConfigError { .. } => "E021",
            Self::Unknown(_) => "E999",
        }
    }

    /// The numeric code used by the outward-facing response form.
    pub open spec fn spec_response_code(&self) -> int {
        match self {
            Self::SystemInfoFailed(_) => 1001,
            Self::DiskInfoFailed(_) => 1002,
            Self::ScanNotFound(_) => 2001,
            Self::ScanAlreadyRunning => 2002,
            Self::ScanPathInvalid(_) => 2003,
            Self::ScanPermissionDenied(_) => 2004,
            Self::CleanFileNotFound(_) => 3001,
            Self::CleanPermissionDenied(_) => 3002,
            Self::CleanFileInUse(_) => 3003,
            Self::CleanProtectedFile(_) => 3004,
            Self::SettingsLoadFailed(_) => 4001,
            Self::SettingsSaveFailed(_) => 4002,
            Self::IoError(_) => 5001,
            Self::PermissionDenied { .. } => 5002,
            Self::FileNotFound { .. } => 5003,
            Self::FileInUse { .. } => 5004,
            Self::ProtectedPath { .. } => 5005,
            Self::HashCalculationFailed { .. } => 5006,
            Self::HashCalculationTimeout { .. } => 5010,
            Self::InvalidParameter { .. } => 5007,
            Self::SystemCallFailed { .. } => 5008,
            Self::ConfigError { .. } => 5009,
            Self::Unknown(_) => 9999,
        }
    }

    /// A short human-readable description of the error kind.
    pub fn describe(&self) -> (r: &'static str) {
        match self {
            Self::SystemInfoFailed(_) => "system information unavailable",
            Self::DiskInfoFailed(_) => "disk information unavailable",
            Self::ScanNotFound(_) => "scan not found",
            Self::ScanAlreadyRunning => "scan already running",
            Self::ScanPathInvalid(_) => "scan path invalid",
            Self::ScanPermissionDenied(_) => "scan permission denied",
            Self::CleanFileNotFound(_) => "file to clean not found",
            Self::CleanPermissionDenied(_) => "clean permission denied",
            Self::CleanFileInUse(_) => "file in use",
            Self::CleanProtectedFile(_) => "protected file",
            Self::SettingsLoadFailed(_) => "settings could not be loaded",
            Self::SettingsSaveFailed(_) => "settings could not be saved",
            Self::IoError(_) => "input/output error",
            Self::PermissionDenied { .. } => "permission denied",
            Self::FileNotFound { .. } => "file not found",
            Self::FileInUse { .. } => "file already in use",
            Self::ProtectedPath { .. } => "protected path",
            Self::HashCalculationFailed { .. } => "hash calculation failed",
            Self::HashCalculationTimeout { .. } => "hash calculation timed out",
            Self::InvalidParameter { .. } => "invalid parameter",
            Self::SystemCallFailed { .. } => "system call failed",
            Self::ConfigError { .. } => "configuration error",
            Self::Unknown(_) => "unknown error",
        }
    }

    /// The outward-facing response form of the error.
    pub fn to_response(&self) -> (r: ErrorResponse)
        ensures
            r.code == self.spec_response_code(),
            r.details is None,
    {
        ErrorResponse { code: self.response_code(), message: self.describe().to_string(), details: None }
    }

    fn response_code(&self) -> (r: i32)
        ensures
            r == self.spec_response_code(),
    {
        match self {
            Self::SystemInfoFailed(_) => 1001,
            Self::DiskInfoFailed(_) => 1002,
            Self::ScanNotFound(_) => 2001,
            Self::ScanAlreadyRunning => 2002,
            Self::ScanPathInvalid(_) => 2003,
            Self::ScanPermissionDenied(_) => 2004,
            Self::CleanFileNotFound(_) => 3001,
            Self::CleanPermissionDenied(_) => 3002,
            Self::CleanFileInUse(_) => 3003,
            Self::CleanProtectedFile(_) => 3004,
            Self::SettingsLoadFailed(_) => 4001,
            Self::SettingsSaveFailed(_) => 4002,
            Self::IoError(_) => 5001,
            Self::PermissionDenied { .. } => 5002,
            Self::FileNotFound { .. } => 5003,
            Self::FileInUse { .. } => 5004,
            Self::ProtectedPath { .. } => 5005,
            Self::HashCalculationFailed { .. } => 5006,
            Self::HashCalculationTimeout { .. } => 5010,
            Self::InvalidParameter { .. } => 5007,
            Self::SystemCallFailed { .. } => 5008,
            Self::ConfigError { .. } => 5009,
            Self::Unknown(_) => 9999,
        }
    }
}

/// The outward-facing form of an error.
#[derive(Debug, Clone)]
pub struct ErrorResponse {
    pub code: i32,
    pub message: String,
    pub details: Option<String>,
}

} // verus!
