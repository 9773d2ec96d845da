use tillers::config::persistence::{
    backed_up_files, backup_file_name, backups_to_remove, has_backup_extension, initial_files,
    initial_pattern, initial_patterns, initial_workspace, initial_workspaces, join_path,
    ConfigPersistence, PersistenceConfig, PersistenceError,
};
use tillers::config::parser::WorkspaceConfig;
use tillers::config::simple_persistence::{SimpleConfigPersistence, SimplePersistenceConfig};
use tillers::models::tiling_pattern::{LayoutAlgorithm, ResizeBehavior, TilingPattern};
use tillers::models::workspace::WorkspaceState;

#[test]
fn default_paths_under_home() {
    let config = PersistenceConfig::for_home(Some("/Users/me".to_string()));
    assert_eq!(config.config_dir, "/Users/me/.config/tillers");
    assert_eq!(config.backup_dir, "/Users/me/.config/tillers/backups");
    assert_eq!(config.max_backups, 10);
    assert!(config.enable_validation);
    assert!(config.atomic_writes);
    assert_eq!(config.file_permissions, 0o600);
    let here = PersistenceConfig::for_home(None);
    assert_eq!(here.config_dir, "./.config/tillers");
    assert_eq!(config.config_file("workspaces.toml"), "/Users/me/.config/tillers/workspaces.toml");
}

#[test]
fn path_join_adds_one_separator() {
    assert_eq!(join_path("/a/", "b"), "/a/b");
    assert_eq!(join_path("/a", "b"), "/a/b");
    assert_eq!(join_path("", "b"), "b");
}

#[test]
fn backup_names() {
    assert_eq!(backup_file_name("workspaces.toml", 1700000000), "workspaces.toml.1700000000.backup");
    let config = PersistenceConfig::for_home(Some("/h".to_string()));
    assert_eq!(config.backup_file("patterns.toml", 7), "/h/.config/tillers/backups/patterns.toml.7.backup");
    assert!(has_backup_extension("workspaces.toml.7.backup"));
    assert!(!has_backup_extension("workspaces.toml.7.metadata"));
    assert!(!has_backup_extension(".backup"));
    assert!(!has_backup_extension("backup"));
}

#[test]
fn test_backup_and_cleanup() {
    // five backups, modified one after another; two are kept
    let backups: Vec<(String, i128)> = (0..5).map(|i| (format!("test.toml.{i}.backup"), 100 + i as i128)).collect();
    let removed = backups_to_remove(&backups, 2);
    assert_eq!(removed, vec!["test.toml.0.backup", "test.toml.1.backup", "test.toml.2.backup"]);
    assert!(backups_to_remove(&backups, 10).is_empty());
}

#[test]
fn cleanup_keeps_the_first_listed_of_equal_times() {
    let backups = vec![
        ("a".to_string(), 5i128),
        ("b".to_string(), 5i128),
        ("c".to_string(), 9i128),
    ];
    assert_eq!(backups_to_remove(&backups, 2), vec!["b".to_string()]);
}

#[test]
fn test_initialize_config_directory_files() {
    assert_eq!(initial_files(), vec!["workspaces.toml", "patterns.toml", "keybindings.toml", "applications.toml", "monitors.toml"]);
    assert_eq!(backed_up_files().len(), 6);
    assert_eq!(backed_up_files()[5], "window_rules.toml");
}

#[test]
fn initial_contents() {
    let w = initial_workspace(1, 2, 3, 4);
    assert_eq!(w.name, "Default");
    assert_eq!(w.keyboard_shortcut, "opt+1");
    assert_eq!(w.description, Some("Default workspace".to_string()));
    assert_eq!(w.last_used, Some(4));
    assert_eq!(w.state, WorkspaceState::Inactive);
    assert_eq!(initial_workspaces().len(), 1);
    let p = initial_pattern(9);
    assert_eq!(p.name, "Two Column");
    assert_eq!(p.layout_algorithm, LayoutAlgorithm::Columns);
    assert_eq!(p.main_area_ratio, 600);
    assert_eq!(p.window_margin, 5);
    assert_eq!(initial_patterns().len(), 1);
}

#[test]
fn validation_errors_refuse_a_configuration() {
    let store = ConfigPersistence::new(PersistenceConfig::for_home(None)).unwrap();
    let bad = WorkspaceConfig {
        workspaces: Vec::new(),
        patterns: vec![TilingPattern {
            id: 1,
            name: "Bad".to_string(),
            layout_algorithm: LayoutAlgorithm::Grid,
            main_area_ratio: 50,
            gap_size: 0,
            window_margin: 0,
            max_windows: 4,
            resize_behavior: ResizeBehavior::Shrink,
        }],
        window_rules: Vec::new(),
        monitor_configs: Vec::new(),
        keyboard_mappings: Vec::new(),
        application_profiles: Vec::new(),
    };
    match store.validate_config(&bad) {
        Err(PersistenceError::ValidationError { validation_errors }) => {
            assert!(validation_errors.iter().any(|r| r.rule.name == "invalid_main_area_ratio"));
        }
        other => panic!("unexpected: {:?}", other),
    }
    let empty = WorkspaceConfig {
        workspaces: Vec::new(),
        patterns: Vec::new(),
        window_rules: Vec::new(),
        monitor_configs: Vec::new(),
        keyboard_mappings: Vec::new(),
        application_profiles: Vec::new(),
    };
    assert!(store.validate_config(&empty).is_ok());
    assert!(store.get_migration_warnings().is_empty());
}

#[test]
fn simple_store_paths() {
    let store = SimpleConfigPersistence::new(SimplePersistenceConfig::for_home(Some("/u".to_string())));
    assert_eq!(store.workspaces_file(), "/u/.config/tillers/workspaces.toml");
    assert_eq!(store.default_workspaces()[0].name, "Default");
}
