//! Platform boundary: directory traversal, file reads, clock, identifiers
//! and well-known user directories.
//!
//! Everything that touches the machine lives behind a small trusted wrapper
//! here; the rest of the crate works on the plain values these hand back.

use vstd::prelude::*;

verus! {

/// Declares walkdir's directory-entry type so it can appear in signatures.
#[verifier::external_type_specification]
#[verifier::external_body]
pub struct ExDirEntry(walkdir::DirEntry);

/// A snapshot of one filesystem entry, as plain values.
#[derive(Debug, Clone)]
pub struct FsEntry {
    pub path: String,
    pub name: String,
    pub is_dir: bool,
    pub is_file: bool,
    pub size: u64,
    pub modified_time: i64,
    pub accessed_time: i64,
    pub created_time: i64,
    pub readonly: bool,
}

/// What came back from reading a file's contents.
pub enum FileReadOutcome {
    Data(Vec<u8>),
    TimedOut,
    Failed,
}

/// Relies on walkdir::WalkDir: a depth-first traversal of `root`;
/// symbolic links are followed only when asked; unreadable entries are
/// dropped.
#[verifier::external_body]
pub(crate) fn walk_dir_entries(root: &String, follow_links: bool) -> (r: Vec<walkdir::DirEntry>) {
    walkdir::WalkDir::new(root).follow_links(follow_links).into_iter().filter_map(
        |e| e.ok(),
    ).collect()
}

/// Relies on walkdir::WalkDir with min_depth/max_depth 1: the immediate
/// children of `dir`, without following symbolic links.
#[verifier::external_body]
pub(crate) fn walk_dir_children(dir: &String) -> (r: Vec<walkdir::DirEntry>) {
    walkdir::WalkDir::new(dir)
        .min_depth(1)
        .max_depth(1)
        .follow_links(false)
        .into_iter()
        .filter_map(|e| e.ok())
        .collect()
}

/// Relies on walkdir::WalkDir with max_depth 0: the entry for `path` itself,
/// or None when it cannot be read.
#[verifier::external_body]
pub(crate) fn lookup_dir_entry(path: &String) -> (r: Option<walkdir::DirEntry>) {
    walkdir::WalkDir::new(path).max_depth(0).follow_links(false).into_iter().next().and_then(
        |e| e.ok(),
    )
}

/// Relies on walkdir::DirEntry::path for the entry's full path.
#[verifier::external_body]
pub(crate) fn entry_path_string(e: &walkdir::DirEntry) -> (r: String) {
    e.path().to_string_lossy().to_string()
}

/// Relies on walkdir::DirEntry::file_name for the entry's final component.
#[verifier::external_body]
pub(crate) fn entry_name_string(e: &walkdir::DirEntry) -> (r: String) {
    e.file_name().to_string_lossy().to_string()
}

/// Relies on walkdir::DirEntry::file_type.
#[verifier::external_body]
pub(crate) fn entry_is_dir(e: &walkdir::DirEntry) -> (r: bool) {
    e.file_type().is_dir()
}

/// Relies on walkdir::DirEntry::file_type.
#[verifier::external_body]
pub(crate) fn entry_is_file(e: &walkdir::DirEntry) -> (r: bool) {
    e.file_type().is_file()
}

/// Relies on walkdir::DirEntry::metadata for the entry's length in bytes.
#[verifier::external_body]
pub(crate) fn entry_size(e: &walkdir::DirEntry) -> (r: u64) {
    e.metadata().map(|m| m.len()).unwrap_or(0)
}

/// Relies on walkdir::DirEntry::metadata for the modification time,
/// as seconds since the Unix epoch (0 when unavailable).
#[verifier::external_body]
pub(crate) fn entry_modified_secs(e: &walkdir::DirEntry) -> (r: i64) {
    e.metadata()
        .ok()
        .and_then(|m| m.modified().ok())
        .and_then(|t| t.duration_since(std::time::UNIX_EPOCH).ok())
        .map(|d| d.as_secs() as i64)
        .unwrap_or(0)
}

/// Relies on walkdir::DirEntry::metadata for the access time,
/// as seconds since the Unix epoch (0 when unavailable).
#[verifier::external_body]
pub(crate) fn entry_accessed_secs(e: &walkdir::DirEntry) -> (r: i64) {
    e.metadata()
        .ok()
        .and_then(|m| m.accessed().ok())
        .and_then(|t| t.duration_since(std::time::UNIX_EPOCH).ok())
        .map(|d| d.as_secs() as i64)
        .unwrap_or(0)
}

/// Relies on walkdir::DirEntry::metadata for the creation time,
/// as seconds since the Unix epoch (0 when unavailable).
#[verifier::external_body]
pub(crate) fn entry_created_secs(e: &walkdir::DirEntry) -> (r: i64) {
    e.metadata()
        .ok()
        .and_then(|m| m.created().ok())
        .and_then(|t| t.duration_since(std::time::UNIX_EPOCH).ok())
        .map(|d| d.as_secs() as i64)
        .unwrap_or(0)
}

/// Relies on walkdir::DirEntry::metadata for the read-only permission bit.
#[verifier::external_body]
pub(crate) fn entry_readonly(e: &walkdir::DirEntry) -> (r: bool) {
    e.metadata().map(|m| m.permissions().readonly()).unwrap_or(false)
}

/// Build the plain snapshot of one traversal entry.
pub(crate) fn snapshot_entry(e: &walkdir::DirEntry) -> FsEntry {
    FsEntry {
        path: entry_path_string(e),
        name: entry_name_string(e),
        is_dir: entry_is_dir(e),
        is_file: entry_is_file(e),
        size: entry_size(e),
        modified_time: entry_modified_secs(e),
        accessed_time: entry_accessed_secs(e),
        created_time: entry_created_secs(e),
        readonly: entry_readonly(e),
    }
}

/// All entries under `root`, depth first, as plain snapshots; symbolic
/// links are not followed.
pub fn walk_entries(root: &String) -> Vec<FsEntry> {
    walk_entries_with(root, false)
}

/// All entries under `root`, depth first, following symbolic links when
/// asked.
pub fn walk_entries_with(root: &String, follow_links: bool) -> Vec<FsEntry> {
    let raw = walk_dir_entries(root, follow_links);
    let mut out: Vec<FsEntry> = Vec::new();
    let mut i: usize = 0;
    while i < raw.len()
        decreases raw@.len() - i,
    {
        out.push(snapshot_entry(&raw[i]));
        i = i + 1;
    }
    out
}

/// The immediate children of `dir`, as plain snapshots.
pub fn read_dir_entries(dir: &String) -> Vec<FsEntry> {
    let raw = walk_dir_children(dir);
    let mut out: Vec<FsEntry> = Vec::new();
    let mut i: usize = 0;
    while i < raw.len()
        decreases raw@.len() - i,
    {
        out.push(snapshot_entry(&raw[i]));
        i = i + 1;
    }
    out
}

/// The snapshot of a single path, or None when it cannot be read.
pub fn lookup_entry(path: &String) -> Option<FsEntry> {
    match lookup_dir_entry(path) {
        Some(e) => Some(snapshot_entry(&e)),
        None => None,
    }
}

/// Whether a path currently exists and is readable.
pub fn path_exists(path: &String) -> bool {
    lookup_dir_entry(path).is_some()
}

/// Relies on tokio::fs::read, driven to completion on a current-thread
/// runtime and bounded by tokio::time::timeout. Runtime::block_on panics
/// when called from inside another tokio runtime, so this must never be
/// called from an async context.
#[verifier::external_body]
pub(crate) fn read_file_with_timeout(path: &String, timeout_ms: u64) -> (r: FileReadOutcome) {
    let rt = match tokio::runtime::Builder::new_current_thread().enable_all().build() {
        Ok(rt) => rt,
        Err(_) => return FileReadOutcome::Failed,
    };
    let dur = core::time::Duration::from_millis(timeout_ms);
    let guard = rt.enter();
    let bounded_read = tokio::time::timeout(dur, tokio::fs::read(path));
    drop(guard);
    match rt.block_on(bounded_read) {
        Ok(Ok(data)) => FileReadOutcome::Data(data),
        Ok(Err(_)) => FileReadOutcome::Failed,
        Err(_) => FileReadOutcome::TimedOut,
    }
}

/// Relies on chrono::Utc::now for the wall clock, in milliseconds since the
/// Unix epoch.
#[verifier::external_body]
pub(crate) fn clock_millis() -> (r: i64) {
    chrono::Utc::now().timestamp_millis()
}

/// Relies on chrono::Utc::now for the wall clock, in seconds since the Unix
/// epoch.
#[verifier::external_body]
pub(crate) fn clock_secs() -> (r: i64) {
    chrono::Utc::now().timestamp()
}

/// The wall clock in milliseconds, clamped to the non-negative range.
pub fn now_millis() -> u64 {
    let ms = clock_millis();
    if ms < 0 {
        0
    } else {
        ms as u64
    }
}

/// The wall clock in seconds, clamped to the non-negative range.
pub fn now_secs() -> u64 {
    let s = clock_secs();
    if s < 0 {
        0
    } else {
        s as u64
    }
}

/// Relies on uuid::Uuid::new_v4, rendered in the standard hyphenated form
/// of 36 characters.
#[verifier::external_body]
pub fn new_scan_uuid() -> (r: String)
    ensures
        r@.len() == 36,
{
    uuid::Uuid::new_v4().to_string()
}

/// Relies on dirs::home_dir.
#[verifier::external_body]
pub(crate) fn sys_home_dir() -> (r: Option<String>) {
    dirs::home_dir().map(|p| p.to_string_lossy().to_string())
}

/// Relies on dirs::document_dir.
#[verifier::external_body]
pub(crate) fn sys_document_dir() -> (r: Option<String>) {
    dirs::document_dir().map(|p| p.to_string_lossy().to_string())
}

/// Relies on dirs::cache_dir (the local application-data directory).
#[verifier::external_body]
pub(crate) fn sys_cache_dir() -> (r: Option<String>) {
    dirs::cache_dir().map(|p| p.to_string_lossy().to_string())
}

/// Relies on dirs::config_dir (the roaming application-data directory).
#[verifier::external_body]
pub(crate) fn sys_config_dir() -> (r: Option<String>) {
    dirs::config_dir().map(|p| p.to_string_lossy().to_string())
}

/// Relies on tempfile::env::temp_dir for the system temporary directory.
#[verifier::external_body]
pub(crate) fn sys_temp_dir() -> (r: String) {
    tempfile::env::temp_dir().to_string_lossy().to_string()
}

} // verus!
