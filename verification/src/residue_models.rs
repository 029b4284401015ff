//! Data model of the uninstalled-software residue scan.

use vstd::prelude::*;

verus! {

/// What kind of leftover a residue scan reports.
#[derive(Debug, Clone, Copy, PartialEq, Eq, Structural)]
pub enum ResidueType {
    LeftoverFolder,
    RegistryKey,
    CacheFile,
    ConfigFile,
}

impl ResidueType {
    pub fn display_name(&self) -> (r: &'static str) {
        match self {
            Self::LeftoverFolder => "leftover directory",
            Self::RegistryKey => "leftover registry key",
            Self::CacheFile => "leftover cache file",
            Self::ConfigFile => "leftover configuration file",
        }
    }

    pub fn description(&self) -> (r: &'static str) {
        match self {
            Self::LeftoverFolder => "a directory left behind by uninstalled software",
            Self::RegistryKey => "a registry entry left behind by uninstalled software",
            Self::CacheFile => "a cache file left behind by uninstalled software",
            Self::ConfigFile => "a configuration file left behind by uninstalled software",
        }
    }
}

/// One leftover found by the scan.
#[derive(Debug, Clone)]
pub struct ResidueItem {
    pub id: String,
    pub name: String,
    pub path: String,
    pub size: u64,
    pub residue_type: ResidueType,
    pub app_name: String,
    pub description: String,
    pub last_modified: i64,
    pub safe_to_delete: bool,
    pub risk_level: String,
}

/// All leftovers of one kind.
#[derive(Debug, Clone)]
pub struct ResidueScanResult {
    pub residue_type: ResidueType,
    pub items: Vec<ResidueItem>,
    pub total_size: u64,
    pub count: u64,
}

/// One program the system still lists as installed.
#[derive(Debug, Clone)]
pub struct InstalledSoftware {
    pub name: String,
    pub publisher: Option<String>,
    pub install_location: Option<String>,
    pub uninstall_string: Option<String>,
    pub version: Option<String>,
    pub install_date: Option<String>,
}

/// What a residue scan covers.
#[derive(Debug, Clone)]
pub struct ResidueScanOptions {
    pub include_leftover_folders: bool,
    pub include_registry_keys: bool,
    pub include_cache_files: bool,
    pub include_config_files: bool,
    pub scan_all_drives: bool,
    pub custom_scan_paths: Vec<String>,
}

impl Default for ResidueScanOptions {
    /// Everything on, the whole disk, no extra roots.
    fn default() -> (r: Self)
        ensures
            r.include_leftover_folders,
            r.include_registry_keys,
            r.include_cache_files,
            r.include_config_files,
            r.scan_all_drives,
            r.custom_scan_paths@.len() == 0,
    {
        ResidueScanOptions {
            include_leftover_folders: true,
            include_registry_keys: true,
            include_cache_files: true,
            include_config_files: true,
            scan_all_drives: true,
            custom_scan_paths: Vec::new(),
        }
    }
}

} // verus!
