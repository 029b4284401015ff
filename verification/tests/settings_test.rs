use disk_tidy::file_analyzer_models::JunkCategory;
use disk_tidy::rule_engine::RuleEngine;
use disk_tidy::settings_manager::SettingsManager;
use disk_tidy::settings_models::CleanRule;
use tempfile::TempDir;

#[test]
fn test_settings_manager_creation() {
    let manager = SettingsManager::new();
    let settings = manager.get_settings();

    assert!(!settings.auto_scan);
    assert!(settings.confirm_before_clean);
}

#[test]
fn test_settings_manager_with_path() {
    let temp_dir = TempDir::new().unwrap();
    let config_path = temp_dir.path().join("settings.json");

    let manager = SettingsManager::with_path(config_path.to_string_lossy().to_string());
    let settings = manager.get_settings();

    assert_eq!(settings.language, "zh-CN");
}

#[test]
fn test_update_settings() {
    let temp_dir = TempDir::new().unwrap();
    let config_path = temp_dir.path().join("settings.json");
    let mut manager = SettingsManager::with_path(config_path.to_string_lossy().to_string());

    let mut settings = manager.get_settings();
    settings.auto_scan = true;
    settings.language = "en-US".to_string();

    let result = manager.update_settings(settings).unwrap();

    assert!(result.auto_scan);
    assert_eq!(result.language, "en-US");
}

#[test]
fn test_reset_settings() {
    let temp_dir = TempDir::new().unwrap();
    let config_path = temp_dir.path().join("settings.json");
    let mut manager = SettingsManager::with_path(config_path.to_string_lossy().to_string());

    let mut settings = manager.get_settings();
    settings.auto_scan = true;
    manager.update_settings(settings).unwrap();

    let reset = manager.reset_settings().unwrap();
    assert!(!reset.auto_scan);
}

#[test]
fn test_add_remove_rule() {
    let temp_dir = TempDir::new().unwrap();
    let config_path = temp_dir.path().join("settings.json");
    let mut manager = SettingsManager::with_path(config_path.to_string_lossy().to_string());

    let rule = CleanRule {
        id: "test-rule".to_string(),
        name: "Test Rule".to_string(),
        description: "A test rule".to_string(),
        pattern: "*.test".to_string(),
        category: JunkCategory::TempFiles,
        enabled: true,
    };

    manager.add_rule(rule.clone()).unwrap();
    let rules = manager.get_rules();
    assert_eq!(rules.len(), 1);

    manager.remove_rule("test-rule").unwrap();
    let rules = manager.get_rules();
    assert!(rules.is_empty());
}

#[test]
fn test_rule_engine_creation() {
    let engine = RuleEngine::new();
    let rules = engine.get_rules();

    assert!(!rules.is_empty());
}

#[test]
fn test_rule_engine_matches() {
    let engine = RuleEngine::new();

    let matches = engine.matches("test.tmp");
    assert!(!matches.is_empty());

    let matches = engine.matches("document.pdf");
    assert!(matches.is_empty());
}

#[test]
fn test_rule_engine_toggle() {
    let mut engine = RuleEngine::new();

    let new_state = engine.toggle_rule("temp-files");
    assert_eq!(new_state, Some(false));

    let new_state = engine.toggle_rule("temp-files");
    assert_eq!(new_state, Some(true));
}

#[test]
fn test_rule_engine_add_custom() {
    let mut engine = RuleEngine::new();
    let initial_count = engine.get_rules().len();

    let rule = CleanRule {
        id: "custom-rule".to_string(),
        name: "Custom Rule".to_string(),
        description: "A custom rule".to_string(),
        pattern: "*.custom".to_string(),
        category: JunkCategory::TempFiles,
        enabled: true,
    };

    engine.add_rule(rule);
    assert_eq!(engine.get_rules().len(), initial_count + 1);
}

#[test]
fn test_rule_engine_patterns() {
    let engine = RuleEngine::new();
    assert!(engine.should_clean("C:\\work\\report.log"));
    assert!(engine.should_clean("C:\\app\\cache\\entry.bin"));
    assert!(!engine.should_clean("C:\\work\\thesis.pdf"));
    assert_eq!(
        engine.get_category_for_path("notes.log"),
        Some(JunkCategory::Logs)
    );
    assert_eq!(engine.get_category_for_path("notes.pdf"), None);
}

#[test]
fn test_rule_engine_remove_and_update() {
    let mut engine = RuleEngine::new();
    assert!(engine.remove_rule("log-files"));
    assert!(!engine.remove_rule("log-files"));
    let replacement = CleanRule {
        id: "temp-files".to_string(),
        name: "temporary files".to_string(),
        description: "renamed".to_string(),
        pattern: "*.tmpx".to_string(),
        category: JunkCategory::TempFiles,
        enabled: true,
    };
    assert!(engine.update_rule(replacement));
    assert!(!engine.should_clean("a.tmp"));
    assert!(engine.should_clean("a.tmpx"));
}

#[test]
fn test_settings_partial_update() {
    let mut manager = SettingsManager::new();
    let update = disk_tidy::settings_manager::SettingsUpdate {
        auto_scan: Some(true),
        scan_on_startup: None,
        default_scan_mode: None,
        default_clean_mode: None,
        confirm_before_clean: None,
        show_notifications: Some(false),
        language: None,
        theme: Some("light".to_string()),
    };
    let result = manager.update_settings_partial(update).unwrap();
    assert!(result.auto_scan);
    assert!(!result.show_notifications);
    assert_eq!(result.theme, "light");
    assert_eq!(result.language, "zh-CN");
}
