//! The plain shapes that cross the boundary to the surrounding application,
//! and their validation.

use vstd::prelude::*;

use crate::cleaner_models::{CleanOptions, DuplicateDetectorOptions};

verus! {

/// Clean options as the boundary hands them in, with an explicit
/// confirmation for permanent deletion.
#[derive(Debug, Clone)]
pub struct CleanOptionsJson {
    pub move_to_recycle_bin: bool,
    pub secure_delete: bool,
    pub secure_pass_count: u8,
    pub confirmed: bool,
}

impl Default for CleanOptionsJson {
    /// The recycle bin, no secure overwrite, three passes, unconfirmed.
    fn default() -> (r: Self)
        ensures
            r.move_to_recycle_bin,
            !r.secure_delete,
            r.secure_pass_count == 3,
            !r.confirmed,
    {
        CleanOptionsJson {
            move_to_recycle_bin: true,
            secure_delete: false,
            secure_pass_count: 3,
            confirmed: false,
        }
    }
}

impl CleanOptionsJson {
    /// Permanent deletion needs confirmation; a secure overwrite needs
    /// between one and thirty-five passes.
    pub fn validate(&self) -> (r: Result<(), String>)
        ensures
            r is Ok <==> ((self.move_to_recycle_bin || self.confirmed) && (!self.secure_delete
                || self.secure_pass_count > 0) && self.secure_pass_count <= 35),
    {
        if !self.move_to_recycle_bin && !self.confirmed {
            return Err(
                "permanent deletion needs explicit confirmation before it runs".to_string(),
            );
        }
        if self.secure_delete && self.secure_pass_count == 0 {
            return Err("a secure overwrite needs at least one pass".to_string());
        }
        if self.secure_pass_count > 35 {
            return Err("a secure overwrite takes thirty-five passes at most".to_string());
        }
        Ok(())
    }

    /// The core options these boundary options carry.
    pub fn to_options(&self) -> (r: CleanOptions)
        ensures
            r.move_to_recycle_bin == self.move_to_recycle_bin,
            r.secure_delete == self.secure_delete,
            r.secure_pass_count == self.secure_pass_count,
    {
        CleanOptions {
            move_to_recycle_bin: self.move_to_recycle_bin,
            secure_delete: self.secure_delete,
            secure_pass_count: self.secure_pass_count,
        }
    }
}

/// A safety decision as the boundary hands it out.
#[derive(Debug, Clone)]
pub struct SafetyCheckResultJson {
    pub safe_to_delete: bool,
    pub risk_level: String,
    pub reason: Option<String>,
}

/// Garbage-detector options as the boundary hands them in.
#[derive(Debug, Clone)]
pub struct GarbageDetectorOptionsJson {
    pub include_system_temp: bool,
    pub include_browser_cache: bool,
    pub include_app_cache: bool,
    pub include_recycle_bin: bool,
    pub include_log_files: bool,
    pub min_file_age_days: u32,
    pub max_files_per_category: Option<usize>,
}

impl Default for GarbageDetectorOptionsJson {
    /// Everything on, no age floor, no cap.
    fn default() -> (r: Self)
        ensures
            r.include_system_temp,
            r.include_browser_cache,
            r.min_file_age_days == 0,
    {
        GarbageDetectorOptionsJson {
            include_system_temp: true,
            include_browser_cache: true,
            include_app_cache: true,
            include_recycle_bin: true,
            include_log_files: true,
            min_file_age_days: 0,
            max_files_per_category: None,
        }
    }
}

/// One category's identity as the boundary hands it out.
#[derive(Debug, Clone)]
pub struct GarbageCategoryInfo {
    pub category: String,
    pub display_name: String,
    pub description: String,
    pub icon: String,
}

/// Large-file options as the boundary hands them in.
#[derive(Debug, Clone)]
pub struct LargeFileAnalyzerOptionsJson {
    pub threshold: u64,
    pub exclude_paths: Vec<String>,
    pub include_hidden: bool,
    pub include_system: bool,
}

impl Default for LargeFileAnalyzerOptionsJson {
    /// 100 MiB threshold, hidden and system files out.
    fn default() -> (r: Self)
        ensures
            r.threshold == 104857600,
            !r.include_hidden,
            !r.include_system,
    {
        LargeFileAnalyzerOptionsJson {
            threshold: 100 * 1024 * 1024,
            exclude_paths: Vec::new(),
            include_hidden: false,
            include_system: false,
        }
    }
}

/// Duplicate-detector options as the boundary hands them in.
#[derive(Debug, Clone)]
pub struct DuplicateDetectorOptionsJson {
    pub min_size: u64,
    pub max_size: Option<u64>,
    pub include_hidden: bool,
    pub use_cache: bool,
}

impl Default for DuplicateDetectorOptionsJson {
    /// 1 MiB minimum size, no maximum, hidden files out, cache on.
    fn default() -> (r: Self)
        ensures
            r.min_size == 1048576,
            r.max_size is None,
            !r.include_hidden,
            r.use_cache,
    {
        DuplicateDetectorOptionsJson {
            min_size: 1024 * 1024,
            max_size: None,
            include_hidden: false,
            use_cache: true,
        }
    }
}

impl DuplicateDetectorOptionsJson {
    /// The core options these boundary options carry.
    pub fn to_options(&self) -> (r: DuplicateDetectorOptions)
        ensures
            r.min_size == self.min_size,
            r.max_size == self.max_size,
            r.include_hidden == self.include_hidden,
            r.use_cache == self.use_cache,
    {
        DuplicateDetectorOptions {
            min_size: self.min_size,
            max_size: self.max_size,
            include_hidden: self.include_hidden,
            use_cache: self.use_cache,
        }
    }
}

/// What to do about one duplicate group, as the boundary hands it out.
#[derive(Debug, Clone)]
pub struct DuplicateSuggestions {
    pub files_to_delete: Vec<String>,
    pub original_file: Option<String>,
}

/// Junk-scan options as the boundary hands them in.
#[derive(Debug, Clone)]
pub struct JunkScanOptionsJson {
    pub scan_paths: Vec<String>,
    pub include_empty_folders: bool,
    pub include_invalid_shortcuts: bool,
    pub include_old_logs: bool,
    pub include_old_installers: bool,
    pub include_invalid_downloads: bool,
    pub include_small_files: bool,
    pub small_file_max_size: u64,
    pub log_max_age_days: u32,
    pub installer_max_age_days: u32,
    pub exclude_paths: Vec<String>,
    pub include_hidden: bool,
    pub include_system: bool,
}

/// One junk kind's identity as the boundary hands it out.
#[derive(Debug, Clone)]
pub struct JunkTypeInfo {
    pub junk_type: String,
    pub display_name: String,
    pub description: String,
    pub icon: String,
}

/// Clean-rule fields as the boundary hands them in.
#[derive(Debug, Clone)]
pub struct CleanRuleJson {
    pub id: String,
    pub name: String,
    pub description: String,
    pub pattern: String,
    pub category: String,
    pub enabled: bool,
}

/// Settings fields as the boundary hands them in, each optional.
#[derive(Debug, Clone)]
pub struct SettingsUpdateJson {
    pub auto_scan: Option<bool>,
    pub scan_on_startup: Option<bool>,
    pub default_scan_mode: Option<String>,
    pub default_clean_mode: Option<String>,
    pub confirm_before_clean: Option<bool>,
    pub show_notifications: Option<bool>,
    pub language: Option<String>,
    pub theme: Option<String>,
}

/// The outcome of deleting residue items, as the boundary hands it out.
#[derive(Debug, Clone)]
pub struct DeleteResidueResult {
    pub success_count: u64,
    pub failed_count: u64,
    pub failed_items: Vec<FailedItem>,
}

/// One residue item that failed to delete.
#[derive(Debug, Clone)]
pub struct FailedItem {
    pub id: String,
    pub path: String,
    pub reason: String,
}

} // verus!
