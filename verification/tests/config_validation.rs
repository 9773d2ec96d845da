use std::str::FromStr;
use tillers::config::parser::{ConfigParseError, ConfigParser, WorkspaceConfig};
use tillers::config::validator::{ConfigValidator, ValidationSeverity};
use tillers::models::keyboard_mapping::ShortcutCombination;
use tillers::models::tiling_pattern::{LayoutAlgorithm, ResizeBehavior, TilingPattern};
use tillers::models::workspace::{Workspace, WorkspaceState};

fn fresh_id() -> u128 {
    uuid::Uuid::new_v4().as_u128()
}

fn now() -> i64 {
    chrono::Utc::now().timestamp_millis()
}

fn workspace(name: &str, shortcut: &str) -> Workspace {
    Workspace {
        id: fresh_id(),
        name: name.to_string(),
        description: None,
        keyboard_shortcut: shortcut.to_string(),
        tiling_pattern_id: fresh_id(),
        monitor_assignments: Vec::new(),
        auto_arrange: true,
        created_at: now(),
        last_used: Some(now()),
        state: WorkspaceState::default(),
    }
}

#[test]
fn test_validate_workspace_duplicate_names() {
    let validator = ConfigValidator::new().unwrap();
    let workspaces = vec![workspace("Test", "opt+1"), workspace("Test", "opt+2")];

    let results = validator.validate_workspaces(&workspaces);
    assert!(!results.is_empty());
    assert!(results.iter().any(|r| r.rule.name == "duplicate_workspace_name"));
}

#[test]
fn test_validate_legacy_command_shortcuts() {
    let validator = ConfigValidator::new().unwrap();
    let workspaces = vec![workspace("Test", "cmd+1")];

    let results = validator.validate_workspaces(&workspaces);
    assert!(results.iter().any(|r| r.rule.name == "legacy_command_shortcut"));
    assert!(results.iter().any(|r| r.rule.severity == ValidationSeverity::Warning));
}

#[test]
fn test_validate_tiling_pattern_main_area_ratio() {
    let validator = ConfigValidator::new().unwrap();
    let patterns = vec![TilingPattern {
        id: fresh_id(),
        name: "Invalid".to_string(),
        layout_algorithm: LayoutAlgorithm::MasterStack,
        main_area_ratio: 50,
        gap_size: 10,
        window_margin: 5,
        max_windows: 10,
        resize_behavior: ResizeBehavior::Shrink,
    }];

    let results = validator.validate_tiling_patterns(&patterns);
    assert!(results.iter().any(|r| r.rule.name == "invalid_main_area_ratio"));
    assert!(results.iter().any(|r| r.rule.severity == ValidationSeverity::Error));
}

#[test]
fn test_validate_system_reserved_shortcuts() {
    let validator = ConfigValidator::new().unwrap();
    let cmd_space = ShortcutCombination::from_str("cmd+space").unwrap();
    let cmd_tab = ShortcutCombination::from_str("cmd+tab").unwrap();
    let opt_one = ShortcutCombination::from_str("opt+1").unwrap();

    assert!(validator.is_system_reserved_shortcut(&cmd_space));
    assert!(validator.is_system_reserved_shortcut(&cmd_tab));
    assert!(!validator.is_system_reserved_shortcut(&opt_one));
}

#[test]
fn test_shortcut_format_validation() {
    let parser = ConfigParser::new();

    assert!(parser.validate_shortcut_format("opt+1").is_ok());
    assert!(parser.validate_shortcut_format("opt+shift+1").is_ok());
    assert!(parser.validate_shortcut_format("cmd+ctrl+alt+1").is_err());
    assert!(parser.validate_shortcut_format("invalid").is_err());
}

#[test]
fn duplicate_workspace_names_are_refused_by_the_parser_checks() {
    let parser = ConfigParser::new();
    let workspaces = vec![workspace("Development", "opt+1"), workspace("Development", "opt+2")];
    let result = parser.validate_workspaces(&workspaces);
    match result {
        Err(e) => assert!(e.message().contains("Duplicate workspace name")),
        Ok(()) => panic!("duplicate names accepted"),
    }
}

#[test]
fn parser_migrates_command_shortcut_to_option() {
    let parser = ConfigParser::new();
    assert_eq!(parser.migrate_shortcut_combination("cmd+1").unwrap(), "opt+1");
    assert_eq!(parser.migrate_shortcut_combination("opt+2").unwrap(), "opt+2");
}

#[test]
fn full_config_of_defaults_has_no_errors() {
    let validator = ConfigValidator::new().unwrap();
    let pattern = TilingPattern::default();
    let mut w = workspace("Main", "opt+1");
    w.tiling_pattern_id = pattern.id;
    let config = WorkspaceConfig {
        workspaces: vec![w],
        patterns: vec![pattern],
        window_rules: Vec::new(),
        monitor_configs: Vec::new(),
        keyboard_mappings: Vec::new(),
        application_profiles: Vec::new(),
    };
    let results = validator.validate_full_config(&config);
    assert!(results.iter().all(|r| r.rule.severity != ValidationSeverity::Error));
}

#[test]
fn missing_pattern_reference_is_an_error() {
    let validator = ConfigValidator::new().unwrap();
    let config = WorkspaceConfig {
        workspaces: vec![workspace("Main", "opt+1")],
        patterns: Vec::new(),
        window_rules: Vec::new(),
        monitor_configs: Vec::new(),
        keyboard_mappings: Vec::new(),
        application_profiles: Vec::new(),
    };
    let results = validator.validate_cross_references(&config);
    assert!(results.iter().any(|r| r.rule.name == "missing_tiling_pattern_reference"));
}

#[test]
fn parse_error_messages() {
    let e = ConfigParseError::ValidationError { message: "bad".to_string() };
    assert_eq!(e.message(), "Validation error: bad");
}
