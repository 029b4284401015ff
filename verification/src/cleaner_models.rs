//! Data model of the cleaner and of the analyzers: garbage files, large
//! files, duplicate groups, clean options and results.

use vstd::prelude::*;

verus! {

/// How files are removed.
#[derive(Debug, Clone, Copy, PartialEq, Eq, Structural)]
pub enum CleanMode {
    MoveToTrash,
    Permanent,
}

/// Lifecycle of one clean run.
#[derive(Debug, Clone, Copy, PartialEq, Eq, Structural)]
pub enum CleanStatus {
    Pending,
    Running,
    Completed,
    Failed,
    Cancelled,
}

/// Where a garbage file came from.
#[derive(Debug, Clone, Copy, PartialEq, Eq, Structural)]
pub enum GarbageCategory {
    SystemTemp,
    BrowserCache,
    AppCache,
    RecycleBin,
    LogFile,
    Other,
}

impl GarbageCategory {
    /// The user-facing name of the category.
    pub open spec fn spec_display_name(&self) -> Seq<char> {
        match self {
            Self::SystemTemp => "system temporary files"@,
            Self::BrowserCache => "browser cache"@,
            Self::AppCache => "application cache"@,
            Self::RecycleBin => "recycle bin"@,
            Self::LogFile => "log files"@,
            Self::Other => "other"@,
        }
    }

    pub fn display_name(&self) -> (r: &'static str)
        ensures
            r@ == self.spec_display_name(),
    {
        match self {
            Self::SystemTemp => "system temporary files",
            Self::BrowserCache => "browser cache",
            Self::AppCache => "application cache",
            Self::RecycleBin => "recycle bin",
            Self::LogFile => "log files",
            Self::Other => "other",
        }
    }
}

/// How risky deleting a file is, from least to most.
#[derive(Debug, Clone, Copy, PartialEq, Eq, Structural)]
pub enum RiskLevel {
    Low,
    Medium,
    High,
    Critical,
}

impl RiskLevel {
    /// Numeric rank of the level: Low 0, Medium 1, High 2, Critical 3.
    pub open spec fn spec_rank(&self) -> int {
        match self {
            Self::Low => 0,
            Self::Medium => 1,
            Self::High => 2,
            Self::Critical => 3,
        }
    }

    pub fn rank(&self) -> (r: u32)
        ensures
            r == self.spec_rank(),
    {
        match self {
            Self::Low => 0,
            Self::Medium => 1,
            Self::High => 2,
            Self::Critical => 3,
        }
    }

    /// Whether this level is at least as severe as `other`.
    pub fn at_least(&self, other: &RiskLevel) -> (r: bool)
        ensures
            r == (self.spec_rank() >= other.spec_rank()),
    {
        self.rank() >= other.rank()
    }

    /// The user-facing name of the level.
    pub open spec fn spec_display_name(&self) -> Seq<char> {
        match self {
            Self::Low => "low risk"@,
            Self::Medium => "medium risk"@,
            Self::High => "high risk"@,
            Self::Critical => "critical risk"@,
        }
    }

    pub fn display_name(&self) -> (r: &'static str)
        ensures
            r@ == self.spec_display_name(),
    {
        match self {
            Self::Low => "low risk",
            Self::Medium => "medium risk",
            Self::High => "high risk",
            Self::Critical => "critical risk",
        }
    }

    /// The color used to render the level.
    pub open spec fn spec_color(&self) -> Seq<char> {
        match self {
            Self::Low => "#52c41a"@,
            Self::Medium => "#faad14"@,
            Self::High => "#ff4d4f"@,
            Self::Critical => "#a8071a"@,
        }
    }

    pub fn color(&self) -> (r: &'static str)
        ensures
            r@ == self.spec_color(),
    {
        match self {
            Self::Low => "#52c41a",
            Self::Medium => "#faad14",
            Self::High => "#ff4d4f",
            Self::Critical => "#a8071a",
        }
    }
}

/// Which analyzer produced a progress snapshot.
#[derive(Debug, Clone, Copy, PartialEq, Eq, Structural)]
pub enum AnalysisType {
    Garbage,
    LargeFile,
    Duplicate,
}

/// One file that the garbage detector flagged.
#[derive(Debug, Clone)]
pub struct GarbageFile {
    pub path: String,
    pub size: u64,
    pub category: GarbageCategory,
    pub safe_to_delete: bool,
    pub risk_level: RiskLevel,
    pub modified_time: i64,
    pub accessed_time: i64,
}

/// One file above the large-file threshold.
#[derive(Debug, Clone)]
pub struct LargeFile {
    pub path: String,
    pub name: String,
    pub size: u64,
    pub modified_time: i64,
    pub accessed_time: i64,
    pub created_time: i64,
    pub file_type: String,
    pub extension: String,
}

/// A large file together with its filesystem attributes.
#[derive(Debug, Clone)]
pub struct LargeFileDetails {
    pub file: LargeFile,
    pub owner: Option<String>,
    pub is_readonly: bool,
    pub is_hidden: bool,
    pub is_system: bool,
}

/// Options of the large-file analyzer.
#[derive(Debug, Clone)]
pub struct LargeFileAnalyzerOptions {
    pub threshold: u64,
    pub exclude_paths: Vec<String>,
    pub include_hidden: bool,
    pub include_system: bool,
}

impl Default for LargeFileAnalyzerOptions {
    /// 100 MiB threshold, nothing excluded, hidden and system files skipped.
    fn default() -> (r: Self)
        ensures
            r.threshold == 104857600,
            r.exclude_paths@.len() == 0,
            !r.include_hidden,
            !r.include_system,
    {
        LargeFileAnalyzerOptions {
            threshold: 100 * 1024 * 1024,
            exclude_paths: Vec::new(),
            include_hidden: false,
            include_system: false,
        }
    }
}

/// A set of byte-identical files.
///
/// Well-formed groups have at least two members, all of the group's size and
/// hash, wasted space equal to size times (member count - 1), and exactly one
/// member marked as the original.
#[derive(Debug, Clone)]
pub struct DuplicateGroup {
    pub hash: String,
    pub size: u64,
    pub files: Vec<DuplicateFile>,
    pub wasted_space: u64,
    pub file_type: String,
}

/// One member of a duplicate group.
#[derive(Debug, Clone)]
pub struct DuplicateFile {
    pub path: String,
    pub name: String,
    pub modified_time: i64,
    pub is_original: bool,
}

/// Options of the duplicate detector.
#[derive(Debug, Clone)]
pub struct DuplicateDetectorOptions {
    pub min_size: u64,
    pub max_size: Option<u64>,
    pub include_hidden: bool,
    pub use_cache: bool,
}

impl Default for DuplicateDetectorOptions {
    /// 1 MiB minimum size, no maximum, hidden files skipped, cache on.
    fn default() -> (r: Self)
        ensures
            r.min_size == 1048576,
            r.max_size is None,
            !r.include_hidden,
            r.use_cache,
    {
        DuplicateDetectorOptions {
            min_size: 1024 * 1024,
            max_size: None,
            include_hidden: false,
            use_cache: true,
        }
    }
}

/// Options of one clean run.
#[derive(Debug, Clone)]
pub struct CleanOptions {
    pub move_to_recycle_bin: bool,
    pub secure_delete: bool,
    pub secure_pass_count: u8,
}

impl Default for CleanOptions {
    /// Move to the recycle bin, no secure overwrite, three passes when one
    /// is requested.
    fn default() -> (r: Self)
        ensures
            r.move_to_recycle_bin,
            !r.secure_delete,
            r.secure_pass_count == 3,
    {
        CleanOptions { move_to_recycle_bin: true, secure_delete: false, secure_pass_count: 3 }
    }
}

/// The terminal summary of one clean run.
#[derive(Debug, Clone)]
pub struct CleanResult {
    pub scan_id: String,
    pub total_files: u64,
    pub cleaned_files: u64,
    pub failed_files: u64,
    pub skipped_files: u64,
    pub total_size: u64,
    pub cleaned_size: u64,
    pub errors: Vec<CleanError>,
    pub duration_ms: u64,
}

/// One file that failed to clean.
#[derive(Debug, Clone)]
pub struct CleanError {
    pub path: String,
    pub error_code: String,
    pub error_message: String,
}

/// What a clean run would touch, computed before it starts.
#[derive(Debug, Clone)]
pub struct CleanPreview {
    pub total_files: u64,
    pub total_size: u64,
    pub protected_files: Vec<ProtectedFile>,
    pub warnings: Vec<String>,
}

/// One file that the safety rules refuse to delete.
#[derive(Debug, Clone)]
pub struct ProtectedFile {
    pub path: String,
    pub reason: String,
}

/// The persisted report of one clean run.
#[derive(Debug, Clone)]
pub struct CleanReport {
    pub clean_id: String,
    pub start_time: u64,
    pub end_time: u64,
    pub total_files: u64,
    pub total_size: u64,
    pub success_count: u64,
    pub failed_count: u64,
    pub failed_files: Vec<FailedFileInfo>,
}

/// One failed file in a clean report.
#[derive(Debug, Clone)]
pub struct FailedFileInfo {
    pub path: String,
    pub error: String,
}

/// The terminal summary of one garbage analysis.
#[derive(Debug, Clone)]
pub struct GarbageAnalysisResult {
    pub scan_id: String,
    pub total_files: u64,
    pub total_size: u64,
    pub categories: Vec<(String, CategoryStats)>,
    pub high_risk_count: u64,
    pub duration_ms: u64,
}

/// Aggregate numbers of one garbage category.
#[derive(Debug, Clone)]
pub struct CategoryStats {
    pub category: String,
    pub file_count: u64,
    pub total_size: u64,
    pub files: Vec<GarbageFile>,
}

/// The terminal summary of one large-file analysis.
#[derive(Debug, Clone)]
pub struct LargeFileAnalysisResult {
    pub scan_id: String,
    pub total_files: u64,
    pub total_size: u64,
    pub files: Vec<LargeFile>,
    pub threshold: u64,
    pub duration_ms: u64,
}

/// The terminal summary of one duplicate analysis.
#[derive(Debug, Clone)]
pub struct DuplicateAnalysisResult {
    pub scan_id: String,
    pub total_groups: u64,
    pub total_files: u64,
    pub total_size: u64,
    pub wasted_space: u64,
    pub groups: Vec<DuplicateGroup>,
    pub duration_ms: u64,
}

/// Inputs common to the analyzers.
#[derive(Debug, Clone)]
pub struct AnalysisOptions {
    pub paths: Vec<String>,
    pub include_hidden: bool,
    pub include_system: bool,
    pub max_files: Option<u64>,
}

} // verus!
