//! The stable event names under which progress and completion snapshots are
//! pushed outward, and the completion payloads.

use vstd::prelude::*;

use crate::cleaner_models::{AnalysisType, CleanResult};

verus! {

pub const EVENT_SCAN_PROGRESS: &'static str = "scan:progress";

pub const EVENT_SCAN_COMPLETE: &'static str = "scan:complete";

pub const EVENT_CLEAN_PROGRESS: &'static str = "clean:progress";

pub const EVENT_CLEAN_COMPLETE: &'static str = "clean:complete";

pub const EVENT_ERROR: &'static str = "app:error";

pub const EVENT_ANALYSIS_PROGRESS: &'static str = "analysis:progress";

pub const EVENT_ANALYSIS_COMPLETE: &'static str = "analysis:complete";

pub const EVENT_LARGE_FILE_PROGRESS: &'static str = "large_file:progress";

pub const EVENT_LARGE_FILE_COMPLETE: &'static str = "large_file:complete";

pub const EVENT_JUNK_FILE_PROGRESS: &'static str = "junk_file:progress";

pub const EVENT_JUNK_FILE_COMPLETE: &'static str = "junk_file:complete";

/// Pushed when a disk scan finishes.
#[derive(Debug, Clone)]
pub struct ScanCompleteEvent {
    pub scan_id: String,
    pub total_files: u64,
    pub total_size: u64,
    pub duration_ms: u64,
}

/// Pushed when an analysis finishes.
#[derive(Debug, Clone)]
pub struct AnalysisCompleteEvent {
    pub analysis_id: String,
    pub analysis_type: AnalysisType,
    pub duration_ms: u64,
}

/// Pushed when a clean run finishes.
#[derive(Debug, Clone)]
pub struct CleanCompleteEvent {
    pub clean_id: String,
    pub result: CleanResult,
}

} // verus!
