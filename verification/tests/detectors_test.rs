use disk_tidy::cleaner_models::{GarbageCategory, LargeFile, LargeFileAnalyzerOptions};
use disk_tidy::garbage::{GarbageDetector, GarbageDetectorOptions};
use disk_tidy::junk_file::{JunkFileDetector, JunkFileType, JunkScanOptions};
use disk_tidy::large_file::LargeFileAnalyzer;
use disk_tidy::cleaner_models::RiskLevel;
use disk_tidy::file_classifier::{FileClassificationOptions, FileClassifier};
use std::io::Write;

#[test]
fn test_large_file_analyzer_creation() {
    let analyzer = LargeFileAnalyzer::new();
    assert!(analyzer.analyze(&vec![]).total_files == 0);
}

#[test]
fn test_large_file_analyzer_options_default() {
    let options = LargeFileAnalyzerOptions::default();
    assert!(options.threshold > 0);
    assert!(!options.include_hidden);
    assert!(!options.include_system);
}

#[test]
fn test_large_file_analyzer_with_options() {
    let options = LargeFileAnalyzerOptions {
        threshold: u64::MAX,
        exclude_paths: vec![],
        include_hidden: false,
        include_system: false,
    };

    let analyzer = LargeFileAnalyzer::with_options(options);
    let result = analyzer.analyze(&vec![]);

    assert_eq!(result.total_files, 0);
}

#[test]
fn test_large_file_stats_empty() {
    let analyzer = LargeFileAnalyzer::new();
    let stats = analyzer.calculate_stats(&vec![]);

    assert_eq!(stats.total_count, 0);
    assert_eq!(stats.total_size, 0);
    assert!(stats.largest_file.is_none());
}

#[test]
fn test_large_file_details_nonexistent() {
    let analyzer = LargeFileAnalyzer::new();
    let details = analyzer.get_file_details(&"definitely-not-a-real-path-564738".to_string());
    assert!(details.is_none());
}

#[test]
fn test_large_file_grouping_and_stats() {
    let analyzer = LargeFileAnalyzer::new();
    let mk = |path: &str, size: u64, file_type: &str, ext: &str| LargeFile {
        path: path.to_string(),
        name: path.to_string(),
        size,
        modified_time: 0,
        accessed_time: 0,
        created_time: 0,
        file_type: file_type.to_string(),
        extension: ext.to_string(),
    };
    let files = vec![
        mk("C:\\v\\a.mp4", 400, "video", "mp4"),
        mk("C:\\v\\b.mp4", 300, "video", "mp4"),
        mk("C:\\d\\c.pdf", 200, "document", "pdf"),
    ];
    let by_type = analyzer.group_by_type(&files);
    assert_eq!(by_type.len(), 2);
    let by_ext = analyzer.group_by_extension(&files);
    assert_eq!(by_ext.len(), 2);
    let by_dir = analyzer.group_by_directory(&files);
    assert_eq!(by_dir.len(), 2);
    let stats = analyzer.calculate_stats(&files);
    assert_eq!(stats.total_count, 3);
    assert_eq!(stats.total_size, 900);
    assert_eq!(stats.average_size, 300);
    assert_eq!(stats.largest_file.unwrap().size, 400);
    assert_eq!(stats.type_distribution.len(), 2);
}

#[test]
fn test_garbage_detector_creation() {
    let detector = GarbageDetector::new();
    assert!(detector.detect_system_temp().is_empty() || !detector.detect_system_temp().is_empty());
}

#[test]
fn test_garbage_detector_options_default() {
    let options = GarbageDetectorOptions::default();
    assert!(options.include_system_temp);
    assert!(options.include_browser_cache);
    assert_eq!(options.min_file_age_days, 0);
}

#[test]
fn test_garbage_detector_with_options() {
    let options = GarbageDetectorOptions {
        include_system_temp: true,
        include_browser_cache: false,
        include_app_cache: false,
        include_recycle_bin: false,
        include_log_files: false,
        min_file_age_days: 0,
        max_files_per_category: Some(10),
    };

    let detector = GarbageDetector::with_options(options);
    let files = detector.detect_system_temp();

    assert!(files.is_empty() || !files.is_empty());
}

#[test]
fn test_garbage_risk_levels() {
    let detector = GarbageDetector::new();
    assert!(detector.is_protected_path("C:\\Windows\\System32\\drivers\\x.sys"));
    assert!(!detector.is_protected_path("C:\\Users\\x\\temp\\a.tmp"));
    assert_eq!(
        detector.assess_risk_level("C:\\Users\\x\\t\\a.dll", &GarbageCategory::SystemTemp),
        RiskLevel::Critical
    );
    assert_eq!(
        detector.assess_risk_level("C:\\Users\\x\\t\\settings.json", &GarbageCategory::SystemTemp),
        RiskLevel::High
    );
    assert_eq!(
        detector.assess_risk_level("C:\\Users\\x\\t\\a.bin", &GarbageCategory::BrowserCache),
        RiskLevel::Low
    );
    assert_eq!(
        detector.assess_risk_level("C:\\Users\\x\\t\\a.bin", &GarbageCategory::AppCache),
        RiskLevel::Medium
    );
}

#[test]
fn test_junk_detector_creation_and_defaults() {
    let options = JunkScanOptions::default();
    assert!(options.include_empty_folders);
    assert!(!options.include_small_files);
    assert_eq!(options.log_max_age_days, 30);
    assert_eq!(options.installer_max_age_days, 90);

    let detector = JunkFileDetector::new();
    assert!(detector.detect_by_type(JunkFileType::OrphanedFiles).is_none());
    assert!(detector.detect_by_type(JunkFileType::InvalidShortcuts).is_none());
}

#[test]
fn test_junk_type_texts() {
    assert_eq!(JunkFileType::EmptyFolders.icon(), "folder-x");
    assert_eq!(JunkFileType::OldLogs.icon(), "file-text");
    assert!(!JunkFileType::SmallFiles.display_name().is_empty());
    assert!(!JunkFileType::SmallFiles.description().is_empty());
}

#[test]
fn test_file_classifier_defaults() {
    let options = FileClassificationOptions::default();
    assert!(!options.include_hidden);
    assert_eq!(options.top_n_categories, Some(15));
    let _classifier = FileClassifier::new();
    let custom = FileClassifier::with_options(FileClassificationOptions {
        max_files: Some(5),
        ..FileClassificationOptions::default()
    });
    let result = custom.classify("definitely-not-a-real-path-102938");
    assert_eq!(result.total_files, 0);
    assert_eq!(result.path, "definitely-not-a-real-path-102938");
}

#[test]
fn test_classifier_counts_real_files() {
    let dir = tempfile::TempDir::new().unwrap();
    for content in [b"aaa".as_slice(), b"bbbb".as_slice(), b"cc".as_slice()] {
        let mut f = tempfile::Builder::new()
            .prefix("data")
            .keep(true)
            .suffix(".log")
            .tempfile_in(dir.path())
            .unwrap();
        f.write_all(content).unwrap();
        f.flush().unwrap();
    }
    let classifier = FileClassifier::new();
    let result = classifier.classify(&dir.path().to_string_lossy());
    assert_eq!(result.total_files, 3);
    assert_eq!(result.total_size, 9);
    assert_eq!(result.categories.len(), 1);
    assert_eq!(result.categories[0].category, "text");
    assert_eq!(result.largest_files.len(), 3);
    assert_eq!(result.largest_files[0].size, 4);
}
