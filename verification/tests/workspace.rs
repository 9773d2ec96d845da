use tillers::models::workspace::{Workspace, WorkspaceCreateRequest, WorkspaceState, WorkspaceUpdateRequest};
use tillers::TilleRSError;

fn fresh_id() -> u128 {
    uuid::Uuid::new_v4().as_u128()
}

#[test]
fn test_workspace_creation() {
    let request = WorkspaceCreateRequest {
        name: "Test Workspace".to_string(),
        description: Some("A test workspace".to_string()),
        keyboard_shortcut: "cmd+1".to_string(),
        tiling_pattern_id: None,
        auto_arrange: Some(true),
    };

    let default_pattern = fresh_id();
    let workspace = Workspace::new(request, default_pattern).unwrap();

    assert_eq!(workspace.name, "Test Workspace");
    assert_eq!(workspace.description, Some("A test workspace".to_string()));
    assert_eq!(workspace.keyboard_shortcut, "cmd+1");
    assert_eq!(workspace.tiling_pattern_id, default_pattern);
    assert!(workspace.auto_arrange);
    assert_eq!(workspace.state, WorkspaceState::Inactive);
}

#[test]
fn test_workspace_validation() {
    let invalid_request = WorkspaceCreateRequest {
        name: "".to_string(),
        description: None,
        keyboard_shortcut: "cmd+1".to_string(),
        tiling_pattern_id: None,
        auto_arrange: None,
    };

    let result = Workspace::new(invalid_request, fresh_id());
    assert!(result.is_err());

    let invalid_request = WorkspaceCreateRequest {
        name: "Valid Name".to_string(),
        description: None,
        keyboard_shortcut: "invalid".to_string(),
        tiling_pattern_id: None,
        auto_arrange: None,
    };

    let result = Workspace::new(invalid_request, fresh_id());
    assert!(result.is_err());
}

#[test]
fn test_workspace_state_transitions() {
    let request = WorkspaceCreateRequest {
        name: "Test".to_string(),
        description: None,
        keyboard_shortcut: "cmd+1".to_string(),
        tiling_pattern_id: None,
        auto_arrange: None,
    };

    let mut workspace = Workspace::new(request, fresh_id()).unwrap();

    assert_eq!(workspace.state, WorkspaceState::Inactive);
    assert!(!workspace.is_active());

    workspace.activate();
    assert_eq!(workspace.state, WorkspaceState::Active);
    assert!(workspace.is_active());
    assert!(workspace.last_used.is_some());

    workspace.mark_modified();
    assert_eq!(workspace.state, WorkspaceState::Modified);

    workspace.deactivate();
    assert_eq!(workspace.state, WorkspaceState::Inactive);
    assert!(!workspace.is_active());
}

#[test]
fn test_keyboard_shortcut_validation() {
    assert!(Workspace::validate_keyboard_shortcut("cmd+1").is_ok());
    assert!(Workspace::validate_keyboard_shortcut("cmd+shift+a").is_ok());
    assert!(Workspace::validate_keyboard_shortcut("ctrl+opt+F1").is_ok());

    assert!(Workspace::validate_keyboard_shortcut("").is_err());
    assert!(Workspace::validate_keyboard_shortcut("cmd").is_err());
    assert!(Workspace::validate_keyboard_shortcut("invalid+1").is_err());
    assert!(Workspace::validate_keyboard_shortcut("cmd+").is_err());
}

#[test]
fn workspace_new_with_uses_given_id_and_time() {
    let request = WorkspaceCreateRequest {
        name: "Docs".to_string(),
        description: None,
        keyboard_shortcut: "opt+2".to_string(),
        tiling_pattern_id: Some(7),
        auto_arrange: None,
    };
    let workspace = Workspace::new_with(request, 9, 42, 1_000).unwrap();
    assert_eq!(workspace.id, 42);
    assert_eq!(workspace.created_at, 1_000);
    assert_eq!(workspace.tiling_pattern_id, 7);
    assert!(workspace.auto_arrange);
    assert_eq!(workspace.last_used, None);
}

#[test]
fn workspace_name_too_long_is_refused() {
    let request = WorkspaceCreateRequest {
        name: "x".repeat(101),
        description: None,
        keyboard_shortcut: "opt+1".to_string(),
        tiling_pattern_id: None,
        auto_arrange: None,
    };
    match Workspace::new(request, 1) {
        Err(TilleRSError::ValidationError(_)) => {}
        other => panic!("unexpected: {:?}", other),
    }
}

#[test]
fn workspace_update_changes_only_given_fields() {
    let request = WorkspaceCreateRequest {
        name: "Main".to_string(),
        description: Some("first".to_string()),
        keyboard_shortcut: "opt+1".to_string(),
        tiling_pattern_id: None,
        auto_arrange: Some(false),
    };
    let mut workspace = Workspace::new_with(request, 5, 1, 10).unwrap();
    let update = WorkspaceUpdateRequest {
        name: Some("Renamed".to_string()),
        description: None,
        keyboard_shortcut: None,
        tiling_pattern_id: None,
        auto_arrange: Some(true),
    };
    workspace.update(update).unwrap();
    assert_eq!(workspace.name, "Renamed");
    assert_eq!(workspace.description, Some("first".to_string()));
    assert_eq!(workspace.keyboard_shortcut, "opt+1");
    assert!(workspace.auto_arrange);
}
