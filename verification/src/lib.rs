//! Background-scan orchestration and duplicate-file detection.
//!
//! The crate is organised in three layers:
//! - byte/string helpers and platform wrappers at the bottom,
//! - data models shared by all analyzers,
//! - the scan manager, hash calculator and the analyzers on top.

pub mod api_types;
pub mod app_cache_models;
pub mod app_path_resolver;
pub mod app_paths_config;
pub mod cleaner_models;
pub mod disk_scan;
pub mod driver;
pub mod duplicate;
pub mod error;
pub mod events;
pub mod file_analyzer_models;
pub mod file_category;
pub mod file_classifier;
pub mod file_type;
pub mod garbage;
pub mod hash;
pub mod junk_file;
pub mod large_file;
pub mod seq_util;
pub mod settings_manager;
pub mod settings_models;
pub mod path_util;
pub mod platform;
pub mod report;
pub mod residue_models;
pub mod rule_engine;
pub mod safety;
pub mod scan;
pub mod scan_cache;
pub mod scan_manager;
pub mod scanner_framework;
pub mod text;
pub mod wechat_dat;
