//! Data model of a disk scan: options, status, result and the per-category
//! listings that a finished scan exposes.

use vstd::prelude::*;

use crate::platform;

verus! {

/// How much of the disk a scan covers.
#[derive(Debug, Clone, Copy, PartialEq, Eq, Structural)]
pub enum ScanMode {
    Quick,
    Full,
    Custom,
}

/// Lifecycle state of a scan.
///
/// A scan starts Idle, runs as Scanning, may sit in Paused, and ends in one
/// of the terminal states Completed, Cancelled or Error.
#[derive(Debug, Clone, Copy, PartialEq, Eq, Structural)]
pub enum ScanStatus {
    Idle,
    Scanning,
    Paused,
    Completed,
    Cancelled,
    Error,
}

/// What to scan and what to leave out.
#[derive(Debug, Clone)]
pub struct ScanOptions {
    pub paths: Vec<String>,
    pub mode: String,
    pub include_hidden: bool,
    pub include_system: bool,
    pub exclude_paths: Vec<String>,
}

/// The terminal summary of one scan.
#[derive(Debug, Clone)]
pub struct ScanResult {
    pub scan_id: String,
    pub start_time: i64,
    pub end_time: i64,
    pub total_files: u64,
    pub total_size: u64,
    pub total_folders: u64,
    pub categories: Vec<FileCategory>,
    pub status: ScanStatus,
    pub duration: u64,
}

pub const MAX_FILES_PER_CATEGORY: usize = 100;

/// One category of files found by a scan.
#[derive(Debug, Clone)]
pub struct FileCategory {
    pub name: String,
    pub display_name: String,
    pub description: String,
    pub file_count: u64,
    pub total_size: u64,
    pub files: Vec<FileInfo>,
    pub has_more: bool,
}

/// One file found by a scan.
#[derive(Debug, Clone)]
pub struct FileInfo {
    pub path: String,
    pub name: String,
    pub size: u64,
    pub modified_time: i64,
    pub category: String,
}

/// A request for one page of a category's files.
#[derive(Debug, Clone)]
pub struct CategoryFilesRequest {
    pub scan_id: String,
    pub category_name: String,
    pub offset: u64,
    pub limit: u64,
}

/// One page of a category's files.
#[derive(Debug, Clone)]
pub struct CategoryFilesResponse {
    pub files: Vec<FileInfo>,
    pub total: u64,
    pub has_more: bool,
}

impl ScanResult {
    /// An empty result for a scan that just started.
    pub fn new(scan_id: &str) -> (r: ScanResult)
        ensures
            r.scan_id@ == scan_id@,
            r.end_time == 0,
            r.total_files == 0,
            r.total_size == 0,
            r.total_folders == 0,
            r.categories@.len() == 0,
            r.status == ScanStatus::Idle,
            r.duration == 0,
    {
        ScanResult {
            scan_id: scan_id.to_owned(),
            start_time: platform::clock_millis(),
            end_time: 0,
            total_files: 0,
            total_size: 0,
            total_folders: 0,
            categories: Vec::new(),
            status: ScanStatus::Idle,
            duration: 0,
        }
    }
}

/// A fresh opaque identifier for one scan.
pub fn generate_scan_id() -> (r: String)
    ensures
        r@.len() == 36,
{
    platform::new_scan_uuid()
}

} // verus!
