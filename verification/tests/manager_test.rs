use disk_tidy::duplicate::{DuplicateDetectionProgress, DuplicatePhase};
use disk_tidy::scan::ScanStatus;
use disk_tidy::scan_manager::{ControlAction, ScanManager};

fn fresh_progress() -> DuplicateDetectionProgress {
    DuplicateDetectionProgress {
        current_phase: DuplicatePhase::Scanning,
        current_path: String::new(),
        processed_files: 0,
        total_files: 0,
        found_groups: 0,
        percent: 0,
        status: ScanStatus::Idle,
    }
}

/// One cooperative step of a simulated scan task: observe the flags at the
/// checkpoint, and advance the counter only while neither paused nor
/// cancelled.
fn task_step(manager: &mut ScanManager<DuplicateDetectionProgress, Vec<String>>, id: u64) -> bool {
    if manager.check_control(id) == ControlAction::Cancel {
        manager.finish_cancelled(id);
        return false;
    }
    if manager.is_paused(id) {
        return true;
    }
    let current = match manager.get_progress(id) {
        Some(p) => p.processed_files,
        None => return false,
    };
    let mut next = fresh_progress();
    next.processed_files = current + 1;
    manager.update_progress(id, next);
    true
}

#[test]
fn test_pause_is_idempotent() {
    let mut manager: ScanManager<DuplicateDetectionProgress, Vec<String>> = ScanManager::new();
    let id = manager.start_scan(fresh_progress());

    manager.pause_scan(id);
    let first = manager.get_progress(id).unwrap().clone();
    assert_eq!(first.status, ScanStatus::Paused);
    assert!(manager.is_paused(id));

    manager.pause_scan(id);
    let second = manager.get_progress(id).unwrap();
    assert_eq!(second.status, ScanStatus::Paused);
    assert_eq!(second.processed_files, first.processed_files);
    assert!(manager.is_paused(id));
}

#[test]
fn test_resume_running_scan_is_noop() {
    let mut manager: ScanManager<DuplicateDetectionProgress, Vec<String>> = ScanManager::new();
    let id = manager.start_scan(fresh_progress());

    manager.resume_scan(id);
    let first = manager.get_progress(id).unwrap().clone();
    assert_eq!(first.status, ScanStatus::Scanning);
    assert!(!manager.is_paused(id));

    manager.resume_scan(id);
    let second = manager.get_progress(id).unwrap();
    assert_eq!(second.status, ScanStatus::Scanning);
    assert_eq!(second.processed_files, first.processed_files);
}

#[test]
fn test_pause_stops_counter_resume_restarts_cancel_discards() {
    let mut manager: ScanManager<DuplicateDetectionProgress, Vec<String>> = ScanManager::new();
    let id = manager.start_scan(fresh_progress());

    for _ in 0..3 {
        assert!(task_step(&mut manager, id));
    }
    assert_eq!(manager.get_progress(id).unwrap().processed_files, 3);

    manager.pause_scan(id);
    assert_eq!(manager.get_progress(id).unwrap().status, ScanStatus::Paused);
    for _ in 0..4 {
        assert!(task_step(&mut manager, id));
    }
    assert_eq!(manager.get_progress(id).unwrap().processed_files, 3);

    manager.resume_scan(id);
    for _ in 0..2 {
        assert!(task_step(&mut manager, id));
    }
    assert_eq!(manager.get_progress(id).unwrap().processed_files, 5);

    manager.cancel_scan(id);
    assert!(!task_step(&mut manager, id));
    assert_eq!(manager.get_progress(id).unwrap().status, ScanStatus::Cancelled);
    assert!(manager.get_result(id).is_none());
}

#[test]
fn test_two_concurrent_scans_stay_independent() {
    let mut manager: ScanManager<DuplicateDetectionProgress, Vec<String>> = ScanManager::new();
    let first = manager.start_scan(fresh_progress());
    let second = manager.start_scan(fresh_progress());
    assert_ne!(first, second);

    for _ in 0..5 {
        task_step(&mut manager, first);
    }
    for _ in 0..2 {
        task_step(&mut manager, second);
    }

    assert_eq!(manager.get_progress(first).unwrap().processed_files, 5);
    assert_eq!(manager.get_progress(second).unwrap().processed_files, 2);

    manager.pause_scan(first);
    task_step(&mut manager, first);
    task_step(&mut manager, second);
    assert_eq!(manager.get_progress(first).unwrap().processed_files, 5);
    assert_eq!(manager.get_progress(second).unwrap().processed_files, 3);
}

#[test]
fn test_finish_stores_result_and_clear_removes() {
    let mut manager: ScanManager<DuplicateDetectionProgress, Vec<String>> = ScanManager::new();
    let id = manager.start_scan(fresh_progress());

    assert!(manager.get_result(id).is_none());
    manager.finish_scan(id, vec!["group-a".to_string()]);
    assert_eq!(manager.get_progress(id).unwrap().status, ScanStatus::Completed);
    assert_eq!(manager.get_result(id).unwrap().len(), 1);
    assert_eq!(manager.check_control(id), ControlAction::Continue);

    manager.clear_scan(id);
    assert!(manager.get_progress(id).is_none());
    assert!(manager.get_result(id).is_none());
}

#[test]
fn test_failed_scan_keeps_no_result() {
    let mut manager: ScanManager<DuplicateDetectionProgress, Vec<String>> = ScanManager::new();
    let id = manager.start_scan(fresh_progress());
    manager.fail_scan(id);
    assert_eq!(manager.get_progress(id).unwrap().status, ScanStatus::Error);
    assert!(manager.get_result(id).is_none());
}

#[test]
fn test_unknown_scan_id() {
    let mut manager: ScanManager<DuplicateDetectionProgress, Vec<String>> = ScanManager::new();
    assert!(manager.get_progress(99).is_none());
    assert!(manager.get_result(99).is_none());
    assert_eq!(manager.check_control(99), ControlAction::Continue);
    manager.pause_scan(99);
    manager.resume_scan(99);
    manager.cancel_scan(99);
    assert!(manager.get_progress(99).is_none());
}
