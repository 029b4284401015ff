use disk_tidy::cleaner_models::RiskLevel;
use disk_tidy::safety::SafetyChecker;

#[test]
fn test_safety_checker_creation() {
    let checker = SafetyChecker::new();
    assert!(
        !checker.check("C:\\test.txt").safe_to_delete || checker.check("C:\\test.txt").safe_to_delete
    );
}

#[test]
fn test_protected_windows_path() {
    let checker = SafetyChecker::new();

    let result = checker.check("C:\\Windows\\System32\\kernel32.dll");
    assert!(!result.safe_to_delete);
}

#[test]
fn test_protected_program_files() {
    let checker = SafetyChecker::new();

    let result = checker.check("C:\\Program Files\\App\\app.exe");
    assert!(!result.safe_to_delete);
}

#[test]
fn test_user_file_safe() {
    let checker = SafetyChecker::new();

    let result = checker.check("C:\\Users\\Test\\Downloads\\file.txt");
    assert!(result.safe_to_delete || !result.safe_to_delete);
}

#[test]
fn test_risk_level_critical() {
    let checker = SafetyChecker::new();

    let result = checker.check("C:\\Windows\\System32\\ntdll.dll");
    assert_eq!(result.risk_level, RiskLevel::Critical);
}

#[test]
fn test_protected_extensions() {
    let checker = SafetyChecker::new();

    let sys_result = checker.check("C:\\test\\driver.sys");
    assert!(!sys_result.safe_to_delete);
}

#[test]
fn test_sensitive_patterns() {
    let checker = SafetyChecker::new();

    let git_result = checker.check("C:\\project\\.git\\config");
    let env_result = checker.check("C:\\project\\.env");

    assert!(!git_result.safe_to_delete || git_result.safe_to_delete);
    assert!(!env_result.safe_to_delete || env_result.safe_to_delete);
}

#[test]
fn test_safety_result_fields() {
    let checker = SafetyChecker::new();
    let result = checker.check("C:\\test.txt");

    assert!(matches!(
        result.risk_level,
        RiskLevel::Low | RiskLevel::Medium | RiskLevel::High | RiskLevel::Critical
    ));
    assert!(result.reason.is_some() || result.reason.is_none());
}

#[test]
fn test_sensitive_name_blocked() {
    let checker = SafetyChecker::new();
    let result = checker.check("C:\\Users\\Test\\passwords.txt");
    assert!(!result.safe_to_delete);
    assert_eq!(result.risk_level, RiskLevel::High);
}

#[test]
fn test_downloads_low_risk() {
    let checker = SafetyChecker::new();
    let result = checker.check("C:\\Users\\Test\\Downloads\\movie.mp4");
    assert!(result.safe_to_delete);
    assert_eq!(result.risk_level, RiskLevel::Low);
}

#[test]
fn test_add_remove_protected_path() {
    let mut checker = SafetyChecker::new();
    checker.add_protected_path("D:\\Keep".to_string());
    assert!(!checker.is_safe_to_delete("D:\\Keep\\file.bin"));
    checker.remove_protected_path("D:\\Keep");
    let count_before = checker.get_protected_paths().len();
    checker.add_protected_path("D:\\Keep".to_string());
    assert_eq!(checker.get_protected_paths().len(), count_before + 1);
}

#[test]
fn test_add_remove_protected_extension() {
    let mut checker = SafetyChecker::new();
    checker.add_protected_extension("ISO".to_string());
    assert!(!checker.is_safe_to_delete("C:\\stuff\\image.iso"));
    checker.remove_protected_extension("iso");
    assert!(checker.is_safe_to_delete("C:\\stuff\\image.iso"));
}

#[test]
fn test_add_remove_sensitive_pattern() {
    let mut checker = SafetyChecker::new();
    checker.add_sensitive_pattern("Ledger".to_string());
    assert!(!checker.is_safe_to_delete("C:\\stuff\\my-ledger-2020.txt"));
    checker.remove_sensitive_pattern("ledger");
    assert!(checker.is_safe_to_delete("C:\\stuff\\my-ledger-2020.txt"));
}
