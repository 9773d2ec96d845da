use tillers::cli::{
    CommandOutput, ConfigActions, ConfigCommands, DiagnosticsActions, DiagnosticsCommands,
    PermissionActions, PermissionCommands, ServiceActions, ServiceCommands, TilleRSCliExecutor,
    WindowActions, WindowCommands, WorkspaceActions, WorkspaceCommands,
};
use tillers::error_recovery::HealthStatus;
use tillers::models::workspace::{Workspace, WorkspaceState};

fn lines(o: CommandOutput) -> Vec<String> {
    match o {
        CommandOutput::Text(v) => v,
        other => panic!("expected text, got {:?}", other),
    }
}

#[test]
fn workspace_list_text_and_json() {
    let text = TilleRSCliExecutor::new(false);
    let cmd = WorkspaceCommands { action: WorkspaceActions::List };
    assert_eq!(lines(text.execute_workspace_command(&cmd, &Vec::new())), vec!["No workspaces found."]);
    let w = Workspace {
        id: 0x550e8400_e29b_41d4_a716_446655440000,
        name: "Dev".to_string(),
        description: None,
        keyboard_shortcut: "opt+1".to_string(),
        tiling_pattern_id: 1,
        monitor_assignments: Vec::new(),
        auto_arrange: true,
        created_at: 0,
        last_used: None,
        state: WorkspaceState::Active,
    };
    assert_eq!(
        lines(text.execute_workspace_command(&cmd, &vec![w])),
        vec!["Workspaces:", "  550e8400-e29b-41d4-a716-446655440000 - Dev (active)"]
    );
    let json = TilleRSCliExecutor::new(true);
    assert!(matches!(json.execute_workspace_command(&cmd, &Vec::new()), CommandOutput::WorkspacesJson));
}

#[test]
fn workspace_create_reports_its_options() {
    let e = TilleRSCliExecutor::new(false);
    let cmd = WorkspaceCommands {
        action: WorkspaceActions::Create {
            name: "test-workspace".to_string(),
            description: Some("Test workspace".to_string()),
            shortcut: Some("opt+1".to_string()),
            auto_arrange: true,
        },
    };
    assert_eq!(
        lines(e.execute_workspace_command(&cmd, &Vec::new())),
        vec![
            "Workspace 'test-workspace' would be created with:",
            "  Description: Test workspace",
            "  Shortcut: opt+1",
            "  Auto-arrange: true",
        ]
    );
    let delete = WorkspaceCommands { action: WorkspaceActions::Delete { workspace: "w".to_string(), force: false } };
    assert_eq!(
        lines(e.execute_workspace_command(&delete, &Vec::new())),
        vec!["Are you sure you want to delete workspace 'w'? (y/N)", "Workspace 'w' would be deleted"]
    );
}

#[test]
fn window_and_config_commands() {
    let e = TilleRSCliExecutor::new(false);
    let tile = WindowCommands { action: WindowActions::Tile { pattern: "grid".to_string(), workspace: None } };
    assert_eq!(lines(e.execute_window_command(&tile)), vec!["Would apply tiling pattern 'grid' to workspace 'current'"]);
    let mv = WindowCommands { action: WindowActions::Move { window_id: 42, workspace: "Dev".to_string() } };
    assert_eq!(lines(e.execute_window_command(&mv)), vec!["Would move window 42 to workspace 'Dev'"]);
    let import = ConfigCommands { action: ConfigActions::Import { file: "c.toml".to_string(), merge: true } };
    assert_eq!(lines(e.execute_config_command(&import)), vec!["Would import configuration from: c.toml (merge: true)"]);
    let json = TilleRSCliExecutor::new(true);
    let list = WindowCommands { action: WindowActions::List };
    assert_eq!(lines(json.execute_window_command(&list)), vec!["{\"windows\": []}"]);
}

#[test]
fn diagnostics_command_output() {
    let e = TilleRSCliExecutor::new(false);
    let bench = DiagnosticsCommands {
        action: DiagnosticsActions::Benchmark { benchmark_type: "workspace-switching".to_string(), iterations: 50 },
    };
    assert_eq!(
        lines(e.execute_diagnostics_command(&bench).unwrap()),
        vec!["Would run workspace-switching benchmark with 50 iterations"]
    );
    let health = DiagnosticsCommands { action: DiagnosticsActions::Health };
    assert!(e.execute_diagnostics_command(&health).is_none());
    let status = HealthStatus { permissions_granted: true, active_circuit_breakers: vec!["move".to_string()], last_permission_check: None };
    assert_eq!(
        lines(e.health_check_output(&status, 2)),
        vec![
            "=== TilleRS Health Check ===",
            "Status: UNHEALTHY",
            "Permissions: OK",
            "Circuit breakers: [\"move\"]",
            "Workspaces: 2",
            "Description: System issues: Circuit breakers active: move",
        ]
    );
}

#[test]
fn permission_commands() {
    let e = TilleRSCliExecutor::new(false);
    let req = PermissionCommands { action: PermissionActions::Request { permission: Some("accessibility".to_string()) } };
    assert_eq!(lines(e.execute_permission_command(&req).unwrap()), vec!["Would request accessibility permission"]);
    let all = PermissionCommands { action: PermissionActions::Request { permission: None } };
    assert!(e.execute_permission_command(&all).is_none());
    assert_eq!(
        lines(e.permission_recovery_output(false)),
        vec!["Some permissions are missing - please check System Preferences"]
    );
    assert_eq!(
        lines(e.permission_instructions_output(&vec!["first".to_string(), "second".to_string()])),
        vec!["Permission Setup Instructions:", "\n1. first", "\n2. second"]
    );
    assert_eq!(lines(e.permission_instructions_output(&Vec::new())), vec!["All required permissions are granted!"]);
}

#[test]
fn service_commands() {
    let e = TilleRSCliExecutor::new(false);
    let start = ServiceCommands { action: ServiceActions::Start };
    assert_eq!(lines(e.execute_service_command(&start)), vec!["TilleRS service would be started"]);
}
