use disk_tidy::api_types::CleanOptionsJson;
use disk_tidy::app_cache_models::{AppType, CleanCategory};
use disk_tidy::app_path_resolver::{is_reserved_dir_name, qq_account_name, should_skip_file};
use disk_tidy::app_paths_config::AppPathsConfig;
use disk_tidy::cleaner_models::{CleanError, CleanMode, CleanOptions, RiskLevel};
use disk_tidy::driver::{driver_status_from_str, normalize_driver_date, DriverStatus};
use disk_tidy::error::DiskTidyError;
use disk_tidy::file_analyzer_models::JunkCategory;
use disk_tidy::file_category::FileCategoryRegistry;
use disk_tidy::file_type::get_file_type;
use disk_tidy::junk_file::{is_installer_file, is_invalid_download, is_log_file};
use disk_tidy::path_util::{PathUtils, SystemPaths};
use disk_tidy::report::{categorize_errors, format_size};
use disk_tidy::rule_engine::RuleEngine;
use disk_tidy::safety::SafetyChecker;
use disk_tidy::scan::ScanMode;
use disk_tidy::scan_cache::{rescan_decision, IncrementalScanState, ScanCache, CACHE_VALIDITY_SECONDS};
use disk_tidy::scanner_framework::{filter_file_entries, FilterOptions, StandardFileFilter};
use disk_tidy::settings_manager::SettingsManager;
use disk_tidy::settings_models::{CleanRule, WhitelistSettings};

#[test]
fn test_path_extension_and_filename() {
    assert_eq!(
        PathUtils::get_extension("C:\\dir\\Report.PDF"),
        Some("pdf".to_string())
    );
    assert_eq!(PathUtils::get_extension("C:\\dir\\noext"), None);
    assert_eq!(PathUtils::get_extension("C:\\dir\\.hidden"), None);
    assert_eq!(
        PathUtils::get_filename("C:\\dir\\Report.PDF"),
        Some("Report.PDF".to_string())
    );
    assert_eq!(PathUtils::get_filename("C:\\dir\\"), None);
    assert_eq!(
        PathUtils::get_parent("C:\\dir\\Report.PDF"),
        Some("C:\\dir".to_string())
    );
}

#[test]
fn test_path_predicates() {
    assert!(PathUtils::is_subpath("C:\\Windows", "C:\\Windows\\System32"));
    assert!(PathUtils::is_subpath("C:\\Windows", "C:\\Windows"));
    assert!(!PathUtils::is_subpath("C:\\Windows", "C:\\WindowsOld"));
    assert!(PathUtils::equals_ignore_case("C:\\TEMP", "c:\\temp"));
    assert!(!PathUtils::equals_ignore_case("C:\\TEMP", "c:\\tmp"));
    assert!(PathUtils::is_valid_path("C\\files\\a.txt"));
    assert!(!PathUtils::is_valid_path("C:\\files\\a.txt"));
    assert!(PathUtils::is_absolute_path("C:\\files"));
    assert!(PathUtils::is_absolute_path("/usr/bin"));
    assert!(!PathUtils::is_absolute_path("files"));
    assert_eq!(PathUtils::to_absolute("a.txt", "/base"), "/base/a.txt");
    assert_eq!(PathUtils::to_absolute("/a.txt", "/base"), "/a.txt");
}

#[test]
fn test_pattern_matching() {
    assert!(PathUtils::matches_pattern("C:\\logs\\app.log", "*.log"));
    assert!(!PathUtils::matches_pattern("C:\\logs\\app.log", "*.txt"));
    assert!(PathUtils::matches_pattern("C:\\Cache\\x", "cache"));
    let patterns = vec!["*.tmp".to_string(), "*.log".to_string()];
    assert!(PathUtils::matches_patterns("C:\\a.log", &patterns));
    assert!(!PathUtils::matches_patterns("C:\\a.pdf", &patterns));
}

#[test]
fn test_protected_paths_list() {
    let protected = SystemPaths::get_protected_paths();
    assert_eq!(protected.len(), 9);
    assert_eq!(protected[0], "C:\\Windows\\System32");
    assert_eq!(SystemPaths::program_files(), "C:\\Program Files");
    assert_eq!(SystemPaths::get_temp_paths().len(), 2);
}

#[test]
fn test_file_types() {
    assert_eq!(get_file_type("mp4"), "video");
    assert_eq!(get_file_type("MP3"), "audio");
    assert_eq!(get_file_type("jpeg"), "image");
    assert_eq!(get_file_type("zip"), "archive");
    assert_eq!(get_file_type("exe"), "executable");
    assert_eq!(get_file_type("pdf"), "document");
    assert_eq!(get_file_type("rs"), "code");
    assert_eq!(get_file_type("weird"), "other");
}

#[test]
fn test_file_category_registry() {
    let registry = FileCategoryRegistry::new();
    let rule = registry.categorize_file("C:\\Users\\x\\AppData\\Local\\Temp\\work.tmp");
    assert_eq!(rule.unwrap().name, "system_temp");
    assert!(registry.categorize_file("C:\\Program Files\\app\\bin.dll").is_none());
    assert!(registry.is_protected_path("c:\\app\\runtime.dll"));
    assert!(!registry.is_protected_path("c:\\users\\x\\notes.txt"));
    assert!(registry.get_category("log_files").is_some());
    assert!(registry.get_category("nonsense").is_none());
    assert!(registry.is_file_cleanable("C:\\Users\\x\\project\\logs\\run.log"));
}

#[test]
fn test_standard_filter() {
    let options = FilterOptions {
        include_hidden: false,
        include_system: false,
        exclude_paths: vec!["C:\\Skip".to_string()],
    };
    let filter = StandardFileFilter::new(&options);
    let visible = disk_tidy::platform::FsEntry {
        path: "C:\\Data\\a.txt".to_string(),
        name: "a.txt".to_string(),
        is_dir: false,
        is_file: true,
        size: 1,
        modified_time: 0,
        accessed_time: 0,
        created_time: 0,
        readonly: false,
    };
    assert!(filter.check_entry(&visible));
    let hidden = disk_tidy::platform::FsEntry {
        name: ".a.txt".to_string(),
        path: "C:\\Data\\.a.txt".to_string(),
        ..visible.clone()
    };
    assert!(!filter.check_entry(&hidden));
    let hidden_dir = disk_tidy::platform::FsEntry {
        is_dir: true,
        is_file: false,
        ..hidden.clone()
    };
    assert!(filter.check_entry(&hidden_dir));
    let excluded = disk_tidy::platform::FsEntry {
        path: "C:\\Skip\\a.txt".to_string(),
        ..visible.clone()
    };
    assert!(!filter.check_entry(&excluded));
    let protected = disk_tidy::platform::FsEntry {
        path: "C:\\Windows\\System32\\a.dll".to_string(),
        name: "a.dll".to_string(),
        ..visible.clone()
    };
    assert!(!filter.check_entry(&protected));
}

#[test]
fn test_whitelist() {
    let mut wl = WhitelistSettings::new();
    wl.add_path("C:\\Keep".to_string(), "kept".to_string());
    assert!(wl.is_path_whitelisted("c:\\keep\\sub\\f.txt"));
    assert!(!wl.is_path_whitelisted("c:\\other\\f.txt"));
    wl.add_extension("pdf".to_string(), "documents".to_string());
    assert!(wl.is_extension_whitelisted(".PDF"));
    assert!(!wl.is_extension_whitelisted(".doc"));
    wl.add_pattern("*.iso".to_string(), "images".to_string());
    assert!(wl.matches_pattern("disk.iso"));
    assert!(!wl.matches_pattern("disk.img"));
    assert!(wl.remove_path("C:\\Keep"));
    assert!(!wl.is_path_whitelisted("c:\\keep\\sub\\f.txt"));
    assert!(wl.remove_extension("pdf"));
    assert!(wl.remove_pattern("*.iso"));
    wl.add_pattern("*.iso".to_string(), "images".to_string());
    assert!(!wl.toggle_pattern("*.iso"));
    assert!(!wl.matches_pattern("disk.iso"));
}

#[test]
fn test_clean_options_validation() {
    let defaults = CleanOptionsJson::default();
    assert!(defaults.validate().is_ok());
    let unconfirmed = CleanOptionsJson {
        move_to_recycle_bin: false,
        confirmed: false,
        ..CleanOptionsJson::default()
    };
    assert!(unconfirmed.validate().is_err());
    let zero_pass = CleanOptionsJson {
        secure_delete: true,
        secure_pass_count: 0,
        ..CleanOptionsJson::default()
    };
    assert!(zero_pass.validate().is_err());
    let too_many = CleanOptionsJson {
        secure_pass_count: 36,
        ..CleanOptionsJson::default()
    };
    assert!(too_many.validate().is_err());
    let defaults = CleanOptions::default();
    assert!(defaults.move_to_recycle_bin);
    assert_eq!(defaults.secure_pass_count, 3);
}

#[test]
fn test_driver_helpers() {
    assert_eq!(driver_status_from_str("OK"), DriverStatus::Running);
    assert_eq!(driver_status_from_str("degraded"), DriverStatus::Error);
    assert_eq!(driver_status_from_str("Stopped"), DriverStatus::Stopped);
    assert_eq!(driver_status_from_str(""), DriverStatus::Unknown);
    assert_eq!(driver_status_from_str("healthy"), DriverStatus::Running);
    assert_eq!(normalize_driver_date("2021-03-04T12:00:00"), "2021-03-04");
    assert_eq!(normalize_driver_date("2021"), "2021");
}

#[test]
fn test_error_codes() {
    let err = DiskTidyError::HashCalculationTimeout { path: "p".to_string() };
    assert_eq!(err.error_code(), "E022");
    assert_eq!(err.to_response().code, 5010);
    let err = DiskTidyError::ScanAlreadyRunning;
    assert_eq!(err.error_code(), "E004");
    assert_eq!(err.to_response().code, 2002);
}

#[test]
fn test_risk_level_order() {
    assert!(RiskLevel::Critical.at_least(&RiskLevel::High));
    assert!(!RiskLevel::Low.at_least(&RiskLevel::Medium));
    assert_eq!(RiskLevel::Low.color(), "#52c41a");
}

#[test]
fn test_app_cache_names() {
    assert_eq!(AppType::from_str("WeChat"), Some(AppType::Wechat));
    assert_eq!(AppType::from_str("nobody"), None);
    assert_eq!(AppType::Qq.to_str(), "qq");
    assert_eq!(
        CleanCategory::from_str("THUMB_CACHE"),
        Some(CleanCategory::ThumbCache)
    );
    assert_eq!(CleanCategory::ChatImages.to_str(), "chat_images");
}

#[test]
fn test_app_paths_config() {
    let mut config = AppPathsConfig::new();
    assert!(!config.has_path("wechat"));
    config.set_path("wechat", "D:\\WeChat Files");
    assert_eq!(config.get_path("wechat"), Some("D:\\WeChat Files".to_string()));
    config.set_path("wechat", "E:\\Elsewhere");
    assert_eq!(config.get_path("wechat"), Some("E:\\Elsewhere".to_string()));
    assert!(config.is_configured(&vec!["wechat".to_string()]));
    assert!(!config.is_configured(&vec!["wechat".to_string(), "qq".to_string()]));
    config.remove_path("wechat");
    assert!(!config.has_path("wechat"));
}

#[test]
fn test_scan_cache_records() {
    let mut cache = ScanCache::new();
    assert_eq!(cache.get_app_last_scan("qq"), None);
    assert!(cache.should_rescan("qq", false));
    cache.update_app_info("qq", vec!["D:\\QQ".to_string()], 10, 2048);
    assert!(cache.get_app_last_scan("qq").is_some());
    assert!(!cache.should_rescan("qq", false));
    assert!(cache.should_rescan("qq", true));

    let mut state = IncrementalScanState::new(500);
    state.record_file(true);
    state.record_file(false);
    assert_eq!(state.scanned_files, 2);
    assert_eq!(state.modified_files, 1);
}

#[test]
fn test_junk_predicates() {
    assert!(is_log_file("C:\\app\\run.log"));
    assert!(is_log_file("C:\\app\\catalog.txt"));
    assert!(!is_log_file("C:\\app\\photo.png"));
    assert!(is_installer_file("C:\\dl\\setup_v2.exe"));
    assert!(!is_installer_file("C:\\dl\\report.pdf"));
    assert!(is_invalid_download("movie.mkv.part"));
    assert!(is_invalid_download("Unconfirmed 12345.crdownload"));
    assert!(!is_invalid_download("movie.mkv"));
}

#[test]
fn test_resolver_names() {
    assert!(is_reserved_dir_name("All Users"));
    assert!(is_reserved_dir_name(".hidden"));
    assert!(!is_reserved_dir_name("wxid_abc123"));
    assert!(qq_account_name("123456789"));
    assert!(qq_account_name("QQGame"));
    assert!(!qq_account_name("other"));
    assert!(should_skip_file("Thumbs.db"));
    assert!(should_skip_file(".DS_Store"));
    assert!(!should_skip_file("notes.txt"));
}

#[test]
fn test_report_error_grouping() {
    let errors = vec![
        CleanError {
            path: "a".to_string(),
            error_code: "E014".to_string(),
            error_message: "m".to_string(),
        },
        CleanError {
            path: "b".to_string(),
            error_code: "E014".to_string(),
            error_message: "m".to_string(),
        },
        CleanError {
            path: "c".to_string(),
            error_code: "E015".to_string(),
            error_message: "m".to_string(),
        },
    ];
    let categories = categorize_errors(&errors);
    assert_eq!(categories.len(), 2);
    assert_eq!(categories[0].error_code, "E014");
    assert_eq!(categories[0].count, 2);
    assert_eq!(categories[1].count, 1);
}

#[test]
fn test_scan_id_shape() {
    let id = disk_tidy::scan::generate_scan_id();
    assert_eq!(id.len(), 36);
    let other = disk_tidy::scan::generate_scan_id();
    assert_ne!(id, other);
}

#[test]
fn test_normalize_paths() {
    assert_eq!(PathUtils::normalize("a/b/../c"), "a/c");
    assert_eq!(PathUtils::normalize("a/./b"), "a/b");
    assert_eq!(PathUtils::normalize("a//b\\c"), "a/b/c");
    assert_eq!(PathUtils::normalize("../a"), "../a");
    assert_eq!(PathUtils::normalize("a/.."), "");
    assert_eq!(PathUtils::normalize_string("x/y/./../z"), "x/z");
    assert_eq!(PathUtils::normalize("/a"), "/a");
    assert_eq!(PathUtils::normalize("/a/../b"), "/b");
    assert_eq!(PathUtils::normalize("/a/./b/../c"), "/a/c");
    assert_eq!(PathUtils::normalize("/"), "/");
    assert_eq!(PathUtils::normalize("\\a\\..\\b"), "/b");
}

#[test]
fn test_rescan_decision_outcomes() {
    assert!(rescan_decision(true, Some(10_000), 10_001));
    assert!(rescan_decision(false, None, 0));
    assert!(!rescan_decision(false, Some(10_000), 10_000 + CACHE_VALIDITY_SECONDS));
    assert!(rescan_decision(false, Some(10_000), 10_001 + CACHE_VALIDITY_SECONDS));
    assert!(!rescan_decision(false, Some(10_000), 9_999));
}

#[test]
fn test_filter_file_entries_exact() {
    let options = FilterOptions {
        include_hidden: false,
        include_system: false,
        exclude_paths: vec![],
    };
    let filter = StandardFileFilter::new(&options);
    let keep = disk_tidy::platform::FsEntry {
        path: "C:\\Data\\a.txt".to_string(),
        name: "a.txt".to_string(),
        is_dir: false,
        is_file: true,
        size: 1,
        modified_time: 0,
        accessed_time: 0,
        created_time: 0,
        readonly: false,
    };
    let hidden = disk_tidy::platform::FsEntry {
        path: "C:\\Data\\.b".to_string(),
        name: ".b".to_string(),
        ..keep.clone()
    };
    let dir = disk_tidy::platform::FsEntry {
        path: "C:\\Data\\sub".to_string(),
        name: "sub".to_string(),
        is_dir: true,
        is_file: false,
        ..keep.clone()
    };
    let entries = vec![hidden, keep.clone(), dir];
    let kept = filter_file_entries(&filter, entries);
    assert_eq!(kept.len(), 1);
    assert_eq!(kept[0].path, keep.path);
}

#[test]
fn test_format_size_values() {
    assert_eq!(format_size(0), "0 B");
    assert_eq!(format_size(1023), "1023 B");
    assert_eq!(format_size(1024), "1.00 KB");
    assert_eq!(format_size(1536), "1.50 KB");
    assert_eq!(format_size(2048), "2.00 KB");
    assert_eq!(format_size(1024 * 1024), "1.00 MB");
    assert_eq!(format_size(5 * 1024 * 1024 + 512 * 1024), "5.50 MB");
    assert_eq!(format_size(1024 * 1024 * 1024), "1.00 GB");
    assert_eq!(format_size(3 * 1024 * 1024 * 1024 + 256 * 1024 * 1024), "3.25 GB");
}

#[test]
fn test_add_rule_tied_to_presence() {
    let mut engine = RuleEngine::new();
    let n = engine.get_rules().len();
    let dup = CleanRule {
        id: "temp-files".to_string(),
        name: "again".to_string(),
        description: String::new(),
        pattern: "*.x".to_string(),
        category: JunkCategory::TempFiles,
        enabled: true,
    };
    engine.add_rule(dup);
    assert_eq!(engine.get_rules().len(), n);
    let fresh = CleanRule {
        id: "fresh-rule".to_string(),
        name: "fresh".to_string(),
        description: String::new(),
        pattern: "*.x".to_string(),
        category: JunkCategory::TempFiles,
        enabled: true,
    };
    engine.add_rule(fresh.clone());
    assert_eq!(engine.get_rules().len(), n + 1);
    engine.add_rule(fresh);
    assert_eq!(engine.get_rules().len(), n + 1);
}

#[test]
fn test_protected_path_add_twice() {
    let mut checker = SafetyChecker::new();
    let n = checker.get_protected_paths().len();
    checker.add_protected_path("D:\\Vault".to_string());
    assert_eq!(checker.get_protected_paths().len(), n + 1);
    checker.add_protected_path("D:\\Vault".to_string());
    assert_eq!(checker.get_protected_paths().len(), n + 1);
}

#[test]
fn test_whitelist_toggle_round_trip() {
    let mut wl = WhitelistSettings::new();
    wl.add_path("C:\\Keep".to_string(), "kept".to_string());
    assert!(!wl.toggle_path("C:\\Keep"));
    assert!(wl.toggle_path("C:\\Keep"));
    assert!(wl.is_path_whitelisted("c:\\keep\\f.txt"));
    assert!(!wl.toggle_path("C:\\Elsewhere"));

    wl.add_extension("log".to_string(), "logs".to_string());
    assert!(wl.is_extension_whitelisted(".log"));
    assert!(!wl.toggle_extension("log"));
    assert!(!wl.is_extension_whitelisted(".log"));
    assert!(wl.toggle_extension(".log"));
    assert!(wl.is_extension_whitelisted("*no such*") == false);
    assert!(wl.remove_extension("log"));
    assert!(!wl.remove_extension("log"));
}

#[test]
fn test_reset_restores_every_field() {
    let mut manager = SettingsManager::new();
    let mut settings = manager.get_settings();
    settings.auto_scan = true;
    settings.scan_on_startup = true;
    settings.default_scan_mode = ScanMode::Full;
    settings.default_clean_mode = CleanMode::Permanent;
    settings.confirm_before_clean = false;
    settings.show_notifications = false;
    settings.language = "en-US".to_string();
    settings.theme = "light".to_string();
    manager.update_settings(settings).unwrap();
    let reset = manager.reset_settings().unwrap();
    assert!(!reset.auto_scan);
    assert!(!reset.scan_on_startup);
    assert_eq!(reset.default_scan_mode, ScanMode::Quick);
    assert_eq!(reset.default_clean_mode, CleanMode::MoveToTrash);
    assert!(reset.confirm_before_clean);
    assert!(reset.show_notifications);
    assert_eq!(reset.language, "zh-CN");
    assert_eq!(reset.theme, "dark");
}

#[test]
fn test_scan_cache_other_records_untouched() {
    let mut cache = ScanCache::new();
    cache.update_app_info("qq", vec!["D:\\QQ".to_string()], 10, 2048);
    let qq_first = cache.get_app_last_scan("qq").unwrap();
    cache.update_app_info("wechat", vec!["D:\\WeChat".to_string()], 5, 512);
    assert_eq!(cache.get_app_last_scan("qq"), Some(qq_first));
    cache.update_app_info("qq", vec!["E:\\QQ".to_string()], 11, 4096);
    assert!(cache.get_app_last_scan("wechat").is_some());
}

#[test]
fn test_clean_category_round_trip() {
    for c in [
        CleanCategory::ChatImages,
        CleanCategory::VideoFiles,
        CleanCategory::DocumentFiles,
        CleanCategory::InstallPackages,
        CleanCategory::CacheData,
        CleanCategory::VoiceFiles,
        CleanCategory::EmojiCache,
        CleanCategory::TempFiles,
        CleanCategory::ThumbCache,
    ] {
        assert_eq!(CleanCategory::from_str(c.to_str()), Some(c));
    }
    assert_eq!(CleanCategory::from_str("nothing"), None);
}
