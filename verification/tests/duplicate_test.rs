use std::io::Write;

use disk_tidy::cleaner_models::{DuplicateDetectorOptions, DuplicateFile, DuplicateGroup};
use disk_tidy::duplicate::DuplicateDetector;
use tempfile::TempDir;
use disk_tidy::duplicate::{phase_percent, DuplicatePhase};

fn write_file(dir: &TempDir, content: &[u8]) -> String {
    let mut file = tempfile::Builder::new()
        .prefix("data")
        .keep(true)
        .tempfile_in(dir.path())
        .unwrap();
    file.write_all(content).unwrap();
    file.flush().unwrap();
    file.path().to_string_lossy().to_string()
}

#[test]
fn test_duplicate_detector_creation() {
    let mut detector = DuplicateDetector::new();
    assert!(detector.find_duplicates(&vec![]).total_files == 0);
}

#[test]
fn test_duplicate_detector_options_default() {
    let options = DuplicateDetectorOptions::default();
    assert!(options.min_size > 0);
    assert!(!options.include_hidden);
    assert!(options.use_cache);
}

#[test]
fn test_duplicate_detector_with_options() {
    let options = DuplicateDetectorOptions {
        min_size: u64::MAX,
        max_size: None,
        include_hidden: false,
        use_cache: true,
    };

    let mut detector = DuplicateDetector::with_options(options);
    let result = detector.find_duplicates(&vec![]);

    assert_eq!(result.total_files, 0);
}

#[test]
fn test_duplicate_suggestions_empty() {
    let detector = DuplicateDetector::new();
    let empty_group = DuplicateGroup {
        hash: String::new(),
        size: 0,
        files: vec![],
        wasted_space: 0,
        file_type: String::new(),
    };
    let suggestions = detector.suggest_files_to_delete(&empty_group);
    assert!(suggestions.is_empty());
}

#[test]
fn test_three_identical_files_form_one_group() {
    let dir = TempDir::new().unwrap();
    let content: Vec<u8> = (0..2048u32).map(|i| (i % 251) as u8).collect();
    let p1 = write_file(&dir, &content);
    let p2 = write_file(&dir, &content);
    let p3 = write_file(&dir, &content);
    assert_ne!(p1, p2);
    assert_ne!(p2, p3);

    let options = DuplicateDetectorOptions {
        min_size: 1,
        max_size: None,
        include_hidden: false,
        use_cache: false,
    };
    let mut detector = DuplicateDetector::with_options(options);
    let root = dir.path().to_string_lossy().to_string();
    let result = detector.find_duplicates(&vec![root]);

    assert_eq!(result.total_groups, 1);
    assert_eq!(result.groups.len(), 1);
    let group = &result.groups[0];
    assert_eq!(group.files.len(), 3);
    assert_eq!(group.size, 2048);
    assert_eq!(group.wasted_space, 4096);
    assert_eq!(result.wasted_space, 4096);
    let originals = group.files.iter().filter(|f| f.is_original).count();
    assert_eq!(originals, 1);
}

#[test]
fn test_equal_size_different_content_no_group() {
    let dir = TempDir::new().unwrap();
    let content_a: Vec<u8> = vec![0xAA; 1024];
    let content_b: Vec<u8> = vec![0xBB; 1024];
    write_file(&dir, &content_a);
    write_file(&dir, &content_b);

    let options = DuplicateDetectorOptions {
        min_size: 1,
        max_size: None,
        include_hidden: false,
        use_cache: false,
    };
    let mut detector = DuplicateDetector::with_options(options);
    let root = dir.path().to_string_lossy().to_string();
    let result = detector.find_duplicates(&vec![root]);

    assert_eq!(result.total_groups, 0);
    assert!(result.groups.is_empty());
}

#[test]
fn test_min_size_filter_applies_before_bucketing() {
    let dir = TempDir::new().unwrap();
    let content: Vec<u8> = vec![0x5A; 2048];
    write_file(&dir, &content);
    write_file(&dir, &content);

    let options = DuplicateDetectorOptions {
        min_size: 2049,
        max_size: None,
        include_hidden: false,
        use_cache: false,
    };
    let mut detector = DuplicateDetector::with_options(options);
    let root = dir.path().to_string_lossy().to_string();
    let result = detector.find_duplicates(&vec![root]);

    assert_eq!(result.total_groups, 0);

    let options = DuplicateDetectorOptions {
        min_size: 1,
        max_size: Some(2047),
        include_hidden: false,
        use_cache: false,
    };
    let mut detector = DuplicateDetector::with_options(options);
    let root = dir.path().to_string_lossy().to_string();
    let result = detector.find_duplicates(&vec![root]);
    assert_eq!(result.total_groups, 0);
}

#[test]
fn test_original_is_earliest_modified() {
    let group = DuplicateGroup {
        hash: "h".to_string(),
        size: 10,
        files: vec![
            DuplicateFile {
                path: "C:\\a".to_string(),
                name: "a".to_string(),
                modified_time: 300,
                is_original: false,
            },
            DuplicateFile {
                path: "C:\\b".to_string(),
                name: "b".to_string(),
                modified_time: 100,
                is_original: true,
            },
            DuplicateFile {
                path: "C:\\c".to_string(),
                name: "c".to_string(),
                modified_time: 200,
                is_original: false,
            },
        ],
        wasted_space: 20,
        file_type: "other".to_string(),
    };
    let detector = DuplicateDetector::new();
    let original = detector.suggest_original(&group).unwrap();
    assert_eq!(original.path, "C:\\b");
    assert_eq!(original.modified_time, 100);
}

#[test]
fn test_suggestions_protect_original() {
    let detector = DuplicateDetector::new();
    let group = DuplicateGroup {
        hash: "h".to_string(),
        size: 10,
        files: vec![
            DuplicateFile {
                path: "C:\\Users\\x\\Temp\\copy.bin".to_string(),
                name: "copy.bin".to_string(),
                modified_time: 300,
                is_original: false,
            },
            DuplicateFile {
                path: "C:\\Users\\x\\keep.bin".to_string(),
                name: "keep.bin".to_string(),
                modified_time: 100,
                is_original: true,
            },
        ],
        wasted_space: 10,
        file_type: "other".to_string(),
    };
    let suggestions = detector.suggest_files_to_delete(&group);
    assert_eq!(suggestions.len(), 1);
    assert_eq!(suggestions[0], "C:\\Users\\x\\Temp\\copy.bin");
}

#[test]
fn test_delete_score_weights() {
    let detector = DuplicateDetector::new();
    let in_temp = DuplicateFile {
        path: "C:\\Users\\x\\temp\\f.bin".to_string(),
        name: "f.bin".to_string(),
        modified_time: 0,
        is_original: false,
    };
    assert_eq!(detector.calculate_delete_score(&in_temp), 50);
    let original_on_desktop = DuplicateFile {
        path: "C:\\Users\\x\\desktop\\f.bin".to_string(),
        name: "f.bin".to_string(),
        modified_time: 0,
        is_original: true,
    };
    assert_eq!(detector.calculate_delete_score(&original_on_desktop), -120);
}

#[test]
fn test_groups_sorted_by_wasted_space() {
    let dir = TempDir::new().unwrap();
    let small: Vec<u8> = vec![0x11; 512];
    let large: Vec<u8> = vec![0x22; 4096];
    write_file(&dir, &small);
    write_file(&dir, &small);
    write_file(&dir, &large);
    write_file(&dir, &large);
    write_file(&dir, &large);

    let options = DuplicateDetectorOptions {
        min_size: 1,
        max_size: None,
        include_hidden: false,
        use_cache: true,
    };
    let mut detector = DuplicateDetector::with_options(options);
    let root = dir.path().to_string_lossy().to_string();
    let result = detector.find_duplicates(&vec![root]);

    assert_eq!(result.total_groups, 2);
    assert_eq!(result.groups[0].wasted_space, 8192);
    assert_eq!(result.groups[1].wasted_space, 512);
    assert!(result.groups[0].wasted_space >= result.groups[1].wasted_space);
    assert_eq!(result.total_files, 5);
}

#[test]
fn test_phase_percent_bands() {
    assert_eq!(phase_percent(DuplicatePhase::Scanning, 0, 0), 0);
    assert_eq!(phase_percent(DuplicatePhase::GroupingBySize, 0, 10), 10);
    assert_eq!(phase_percent(DuplicatePhase::CalculatingHash, 0, 0), 20);
    assert_eq!(phase_percent(DuplicatePhase::CalculatingHash, 5, 10), 55);
    assert_eq!(phase_percent(DuplicatePhase::CalculatingHash, 10, 10), 90);
    assert_eq!(phase_percent(DuplicatePhase::GroupingByHash, 0, 0), 90);
    assert_eq!(phase_percent(DuplicatePhase::Finalizing, 0, 0), 100);
}

#[test]
fn test_marked_original_always_kept() {
    // The marked original sits in a temp directory; the unmarked copy sits
    // on the desktop. The original is still the one kept.
    let detector = DuplicateDetector::new();
    let group = DuplicateGroup {
        hash: "h".to_string(),
        size: 10,
        files: vec![
            DuplicateFile {
                path: "C:\\Users\\x\\desktop\\copy.bin".to_string(),
                name: "copy.bin".to_string(),
                modified_time: 300,
                is_original: false,
            },
            DuplicateFile {
                path: "C:\\Users\\x\\temp\\keep.bin".to_string(),
                name: "keep.bin".to_string(),
                modified_time: 100,
                is_original: true,
            },
        ],
        wasted_space: 10,
        file_type: "other".to_string(),
    };
    let suggestions = detector.suggest_files_to_delete(&group);
    assert_eq!(suggestions.len(), 1);
    assert_eq!(suggestions[0], "C:\\Users\\x\\desktop\\copy.bin");
}
