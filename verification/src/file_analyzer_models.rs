//! Data model of the junk-file analyzer.

use vstd::prelude::*;

verus! {

/// The junk categories a clean rule can target.
#[derive(Debug, Clone, Copy, PartialEq, Eq, Structural)]
pub enum JunkCategory {
    TempFiles,
    Cache,
    Logs,
    BrowserCache,
    RecycleBin,
    Thumbnails,
    WindowsUpdate,
}

impl JunkCategory {
    /// The user-facing name of the category.
    pub open spec fn spec_display_name(&self) -> Seq<char> {
        match self {
            Self::TempFiles => "temporary files"@,
            Self::Cache => "cache files"@,
            Self::Logs => "log files"@,
            Self::BrowserCache => "browser cache"@,
            Self::RecycleBin => "recycle bin"@,
            Self::Thumbnails => "thumbnail cache"@,
            Self::WindowsUpdate => "system update cache"@,
        }
    }

    pub fn display_name(&self) -> (r: &'static str)
        ensures
            r@ == self.spec_display_name(),
    {
        match self {
            Self::TempFiles => "temporary files",
            Self::Cache => "cache files",
            Self::Logs => "log files",
            Self::BrowserCache => "browser cache",
            Self::RecycleBin => "recycle bin",
            Self::Thumbnails => "thumbnail cache",
            Self::WindowsUpdate => "system update cache",
        }
    }
}

/// One junk file with the category it fell under.
#[derive(Debug, Clone)]
pub struct JunkFile {
    pub path: String,
    pub size: u64,
    pub category: JunkCategory,
    pub description: String,
    pub risk_level: JunkRiskLevel,
}

/// The risk grades of junk files, from none to high.
#[derive(Debug, Clone, Copy, PartialEq, Eq, Structural)]
pub enum JunkRiskLevel {
    Safe,
    Low,
    Medium,
    High,
}

impl JunkRiskLevel {
    /// The user-facing name of the grade.
    pub open spec fn spec_display_name(&self) -> Seq<char> {
        match self {
            Self::Safe => "safe"@,
            Self::Low => "low risk"@,
            Self::Medium => "medium risk"@,
            Self::High => "high risk"@,
        }
    }

    pub fn display_name(&self) -> (r: &'static str)
        ensures
            r@ == self.spec_display_name(),
    {
        match self {
            Self::Safe => "safe",
            Self::Low => "low risk",
            Self::Medium => "medium risk",
            Self::High => "high risk",
        }
    }
}

/// The terminal summary of one junk analysis.
#[derive(Debug, Clone)]
pub struct JunkAnalysisResult {
    pub scan_id: String,
    pub total_files: u64,
    pub total_size: u64,
    pub categories: Vec<(String, JunkCategoryStats)>,
    pub duration_ms: u64,
}

/// Aggregate numbers of one junk category.
#[derive(Debug, Clone)]
pub struct JunkCategoryStats {
    pub category: JunkCategory,
    pub file_count: u64,
    pub total_size: u64,
    pub files: Vec<JunkFile>,
}

} // verus!
