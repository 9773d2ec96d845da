use tillers::models::keyboard_mapping::{ActionParameters, ActionType, Key, KeyboardMapping, ModifierKey, ShortcutCombination};
use tillers::models::workspace::{WorkspaceCreateRequest, WorkspaceState};
use tillers::services::keyboard_handler::KeyboardHandler;
use tillers::services::workspace_manager::{WorkspaceEvent, WorkspaceManager, WorkspaceManagerConfig};
use tillers::TilleRSError;

fn request(name: &str, shortcut: &str) -> WorkspaceCreateRequest {
    WorkspaceCreateRequest {
        name: name.to_string(),
        description: None,
        keyboard_shortcut: shortcut.to_string(),
        tiling_pattern_id: None,
        auto_arrange: None,
    }
}

#[test]
fn first_workspace_becomes_active() {
    let mut manager = WorkspaceManager::new(WorkspaceManagerConfig::default()).unwrap();
    let id = manager.create_workspace(request("Main", "opt+1"), 5).unwrap();
    assert_eq!(manager.get_active_workspace_id(), Some(id));
    let active = manager.get_active_workspace().unwrap();
    // switching records the use; the workspace's own state is not changed
    assert!(active.last_used.is_some());
    assert_eq!(active.state, WorkspaceState::Inactive);
    let second = manager.create_workspace(request("Other", "opt+2"), 5).unwrap();
    assert_eq!(manager.get_active_workspace_id(), Some(id));
    manager.switch_to_workspace(second).unwrap();
    assert_eq!(manager.get_active_workspace_id(), Some(second));
    let events = manager.take_events();
    assert!(matches!(events[0], WorkspaceEvent::WorkspaceCreated { .. }));
    assert!(matches!(events.last().unwrap(), WorkspaceEvent::WorkspaceActivated { .. }));
}

#[test]
fn duplicate_names_and_shortcuts_are_refused() {
    let mut manager = WorkspaceManager::new(WorkspaceManagerConfig::default()).unwrap();
    manager.create_workspace(request("Main", "opt+1"), 5).unwrap();
    match manager.create_workspace(request("Main", "opt+2"), 5) {
        Err(TilleRSError::ValidationError(m)) => assert_eq!(m, "Workspace name 'Main' already exists"),
        other => panic!("unexpected: {:?}", other),
    }
    assert!(manager.create_workspace(request("Second", "opt+1"), 5).is_err());
    assert_eq!(manager.get_workspace_count(), 1);
    assert_eq!(manager.get_metrics().error_count, 2);
}

#[test]
fn workspace_limit_is_enforced() {
    let config = WorkspaceManagerConfig { max_workspaces: 1, ..WorkspaceManagerConfig::default() };
    let mut manager = WorkspaceManager::new(config).unwrap();
    manager.create_workspace(request("One", "opt+1"), 5).unwrap();
    assert!(manager.is_limit_reached());
    match manager.create_workspace(request("Two", "opt+2"), 5) {
        Err(TilleRSError::ValidationError(m)) => assert_eq!(m, "Maximum workspace limit of 1 reached"),
        other => panic!("unexpected: {:?}", other),
    }
}

#[test]
fn deleting_removes_only_that_workspace() {
    let mut manager = WorkspaceManager::new(WorkspaceManagerConfig::default()).unwrap();
    let a = manager.create_workspace(request("A", "opt+1"), 5).unwrap();
    let b = manager.create_workspace(request("B", "opt+2"), 5).unwrap();
    manager.delete_workspace(a).unwrap();
    assert!(manager.get_workspace(a).is_err());
    assert_eq!(manager.get_workspace(b).unwrap().name, "B");
    assert!(manager.delete_workspace(a).is_err());
}

#[test]
fn loaded_workspaces_replace_the_current_ones() {
    let mut manager = WorkspaceManager::new(WorkspaceManagerConfig::default()).unwrap();
    manager.create_workspace(request("Old", "opt+1"), 5).unwrap();
    let mut source = WorkspaceManager::new(WorkspaceManagerConfig::default()).unwrap();
    source.create_workspace(request("New", "opt+3"), 5).unwrap();
    manager.load_workspaces_from_config(source.list_workspaces());
    let names: Vec<String> = manager.list_workspaces().iter().map(|w| w.name.clone()).collect();
    assert_eq!(names, vec!["New".to_string()]);
    assert_eq!(manager.save_workspaces_to_config().unwrap().len(), 1);
}

#[test]
fn keyboard_handler_enforces_option_and_dispatches() {
    let mut handler = KeyboardHandler::new(vec![ShortcutCombination::new(vec![ModifierKey::Option], Key::Space)]);
    let mapping = KeyboardMapping {
        name: "Focus next".to_string(),
        shortcut_combination: ShortcutCombination::new(vec![ModifierKey::Command], Key::Letter('j')),
        action_type: ActionType::FocusNext,
        parameters: ActionParameters::Empty,
        enabled: true,
        ..Default::default()
    };
    let id = handler.register_mapping(mapping).unwrap();
    let registered = handler.mappings();
    assert_eq!(registered[0].shortcut_combination.modifiers, vec![ModifierKey::Option]);
    assert_eq!(handler.metrics().modifier_migrations, 1);

    let pressed = ShortcutCombination::new(vec![ModifierKey::Option], Key::Letter('j'));
    let event = handler.handle_shortcut(&pressed).unwrap().unwrap();
    assert_eq!(event.mapping_id, id);
    assert_eq!(event.action, ActionType::FocusNext);
    assert!(handler.handle_shortcut(&ShortcutCombination::new(vec![ModifierKey::Option], Key::Letter('q'))).unwrap().is_none());

    let reserved = KeyboardMapping {
        shortcut_combination: ShortcutCombination::new(vec![ModifierKey::Option], Key::Space),
        enabled: true,
        ..Default::default()
    };
    assert!(handler.register_mapping(reserved).is_err());
    assert!(handler.unregister_mapping(id));
    assert!(!handler.unregister_mapping(id));
}

#[test]
fn workspaces_are_found_by_name_ignoring_case() {
    let mut manager = WorkspaceManager::new(WorkspaceManagerConfig::default()).unwrap();
    manager.create_workspace(request("Default Workspace", "opt+1"), 5).unwrap();
    manager.create_workspace(request("Music", "opt+2"), 5).unwrap();
    let found = manager.find_workspaces_by_name("default");
    assert_eq!(found.len(), 1);
    assert_eq!(found[0].name, "Default Workspace");
    assert_eq!(manager.find_workspaces_by_name("MUSIC").len(), 1);
    assert_eq!(manager.find_workspaces_by_name("space").len(), 1);
    assert!(manager.find_workspaces_by_name("video").is_empty());
    assert_eq!(manager.find_workspaces_by_name("").len(), 2);
}

#[test]
fn deleting_the_active_workspace_switches_to_the_first_remaining() {
    let mut manager = WorkspaceManager::new(WorkspaceManagerConfig::default()).unwrap();
    let first = manager.create_workspace(request("One", "opt+1"), 5).unwrap();
    let second = manager.create_workspace(request("Two", "opt+2"), 5).unwrap();
    manager.switch_to_workspace(second).unwrap();
    manager.delete_workspace(second).unwrap();
    assert_eq!(manager.get_active_workspace_id(), Some(first));
    manager.delete_workspace(first).unwrap();
    assert_eq!(manager.get_active_workspace_id(), None);
    assert_eq!(manager.get_workspace_count(), 0);
    assert!(manager.delete_workspace(first).is_err());
}
