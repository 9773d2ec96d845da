use tillers::models::keyboard_mapping::{ActionParameters, ActionType};
use tillers::models::tiling_pattern::{LayoutAlgorithm, ResizeBehavior, TilingPattern};
use tillers::models::workspace::WorkspaceCreateRequest;
use tillers::services::keyboard_handler::{KeyboardEvent, KeyboardHandler};
use tillers::services::tiling_engine::TilingEngine;
use tillers::services::window_manager::{WindowInfo, WindowManager, WindowMode};
use tillers::services::workspace_manager::{WorkspaceManager, WorkspaceManagerConfig};
use tillers::services::workspace_orchestrator::{
    created_workspace_request, focused_window, keyboard_action, next_window_to_focus,
    previous_window_to_focus, tileable_windows, OrchestratorAction, OrchestratorConfig,
    WorkspaceOrchestrator, WorkspaceOrchestratorBuilder,
};
use tillers::macos::accessibility::AXWindow;
use tillers::TilleRSError;

type Frame = (f64, f64, f64, f64);

fn fresh_id() -> u128 {
    uuid::Uuid::new_v4().as_u128()
}

fn orchestrator() -> WorkspaceOrchestrator<Frame> {
    WorkspaceOrchestratorBuilder::new()
        .workspace_manager(WorkspaceManager::new(WorkspaceManagerConfig::default()).expect("Failed to create workspace manager"))
        .window_manager(WindowManager::new())
        .tiling_engine(TilingEngine::new())
        .keyboard_handler(KeyboardHandler::new(Vec::new()))
        .build()
        .expect("Failed to create orchestrator")
}

#[test]
fn test_orchestrator_creation() {
    let orchestrator = WorkspaceOrchestratorBuilder::<Frame>::new()
        .workspace_manager(WorkspaceManager::new(WorkspaceManagerConfig::default()).expect("Failed to create workspace manager"))
        .window_manager(WindowManager::new())
        .tiling_engine(TilingEngine::new())
        .keyboard_handler(KeyboardHandler::new(Vec::new()))
        .build();

    assert!(orchestrator.is_ok());
}

#[test]
fn builder_reports_the_first_missing_service() {
    let r = WorkspaceOrchestratorBuilder::<Frame>::new().build();
    match r {
        Err(TilleRSError::ConfigurationError(m)) => assert_eq!(m, "WorkspaceManager is required"),
        _ => panic!("expected a configuration error"),
    }
    let r = WorkspaceOrchestratorBuilder::<Frame>::new()
        .workspace_manager(WorkspaceManager::new(WorkspaceManagerConfig::default()).unwrap())
        .window_manager(WindowManager::new())
        .build();
    match r {
        Err(TilleRSError::ConfigurationError(m)) => assert_eq!(m, "TilingEngine is required"),
        _ => panic!("expected a configuration error"),
    }
}

#[test]
fn test_orchestrator_with_patterns() {
    let mut orchestrator = orchestrator();

    let pattern = TilingPattern {
        id: fresh_id(),
        name: "Test Pattern".to_string(),
        layout_algorithm: LayoutAlgorithm::MasterStack,
        main_area_ratio: 600,
        gap_size: 10,
        window_margin: 5,
        max_windows: 10,
        resize_behavior: ResizeBehavior::Shrink,
    };

    orchestrator.add_tiling_pattern(pattern.clone());
    assert!(orchestrator.has_pattern(pattern.id));
}

#[test]
fn orchestrator_config_defaults() {
    let config = OrchestratorConfig::default();
    assert!(config.auto_arrange_on_switch);
    assert!(config.auto_arrange_on_new_window);
    assert_eq!(config.layout_delay_ms, 100);
    assert_eq!(config.max_auto_tile_windows, 20);
}

#[test]
fn arrangement_needs_the_workspace_pattern() {
    let mut o = orchestrator();
    assert!(matches!(o.arrangement_pattern(), Ok(None)));
    let pattern_id = 0x550e8400_e29b_41d4_a716_446655440001u128;
    let request = WorkspaceCreateRequest {
        name: "Dev".to_string(),
        description: None,
        keyboard_shortcut: "opt+1".to_string(),
        tiling_pattern_id: Some(pattern_id),
        auto_arrange: Some(true),
    };
    o.workspace_manager.create_workspace(request, 1).unwrap();
    match o.arrangement_pattern() {
        Err(TilleRSError::ConfigurationError(m)) => {
            assert_eq!(m, "Tiling pattern 550e8400-e29b-41d4-a716-446655440001 not found")
        }
        other => panic!("unexpected: {:?}", other),
    }
    let pattern = TilingPattern { id: pattern_id, ..Default::default() };
    o.add_tiling_pattern(pattern);
    match o.arrangement_pattern() {
        Ok(Some(p)) => assert_eq!(p.id, pattern_id),
        other => panic!("unexpected: {:?}", other),
    }
}

fn window(id: u32, focused: bool) -> WindowInfo<Frame> {
    let ax = AXWindow::new(id, "w", "a", "b.c", (0.0, 0.0, 500.0, 500.0), false, false, focused, None);
    WindowInfo::from_ax(&ax)
}

#[test]
fn tileable_windows_skip_floating_minimized_and_small() {
    let mut floating = window(2, false);
    floating.mode = WindowMode::Floating;
    let mut minimized = window(3, false);
    minimized.is_minimized = true;
    let windows = vec![window(1, false), floating, minimized, window(4, false), window(5, false)];
    let large = vec![true, true, true, false, true];
    let ids: Vec<u32> = tileable_windows(&windows, &large).iter().map(|w| w.id).collect();
    assert_eq!(ids, vec![1, 5]);
}

#[test]
fn too_many_windows_are_not_tiled() {
    let o = orchestrator();
    let few: Vec<WindowInfo<Frame>> = (1..=3).map(|i| window(i, false)).collect();
    assert_eq!(o.windows_to_tile(&few), Some(vec![1, 2, 3]));
    let many: Vec<WindowInfo<Frame>> = (1..=21).map(|i| window(i, false)).collect();
    assert_eq!(o.windows_to_tile(&many), None);
    assert_eq!(o.windows_to_tile(&Vec::new()), None);
}

#[test]
fn focus_moves_cyclically() {
    let windows = vec![window(1, false), window(2, true), window(3, false)];
    assert_eq!(next_window_to_focus(&windows), Some(3));
    assert_eq!(previous_window_to_focus(&windows), Some(1));
    let last = vec![window(1, false), window(2, false), window(3, true)];
    assert_eq!(next_window_to_focus(&last), Some(1));
    let none = vec![window(1, false), window(2, false)];
    assert_eq!(next_window_to_focus(&none), Some(1));
    assert_eq!(previous_window_to_focus(&none), Some(2));
    assert_eq!(next_window_to_focus(&vec![window(1, true)]), None);
    assert_eq!(focused_window(&windows).map(|w| w.id), Some(2));
}

fn event(action: ActionType, parameters: ActionParameters) -> KeyboardEvent {
    KeyboardEvent { mapping_id: 1, action, parameters, global: true }
}

#[test]
fn keyboard_actions_are_dispatched() {
    assert_eq!(keyboard_action(&event(ActionType::SwitchWorkspace, ActionParameters::WorkspaceId(7))), OrchestratorAction::SwitchWorkspace(7));
    assert_eq!(keyboard_action(&event(ActionType::SwitchWorkspace, ActionParameters::Empty)), OrchestratorAction::SwitchToFirstWorkspace);
    assert_eq!(keyboard_action(&event(ActionType::MoveWindow, ActionParameters::Empty)), OrchestratorAction::Ignored);
    assert_eq!(keyboard_action(&event(ActionType::RefreshLayout, ActionParameters::Empty)), OrchestratorAction::ArrangeCurrentWorkspace);
    assert_eq!(keyboard_action(&event(ActionType::MinimizeWindow, ActionParameters::Empty)), OrchestratorAction::Unhandled);
}

#[test]
fn keyboard_created_workspace_gets_an_option_shortcut() {
    let request = created_workspace_request("notes");
    assert_eq!(request.keyboard_shortcut, "opt+n");
    assert_eq!(request.description, Some("Workspace created via keyboard shortcut".to_string()));
    assert_eq!(created_workspace_request("").keyboard_shortcut, "opt+x");

    let mut o = orchestrator();
    let pattern = TilingPattern::default();
    let pattern_id = pattern.id;
    o.add_tiling_pattern(pattern);
    let r = o.handle_keyboard_event(&event(ActionType::CreateWorkspace, ActionParameters::WorkspaceName("notes".to_string())));
    assert_eq!(r, Ok(OrchestratorAction::CreateWorkspace("notes".to_string())));
    let created = o.workspace_manager.find_workspace_by_shortcut("opt+n").unwrap();
    assert_eq!(created.tiling_pattern_id, pattern_id);
    assert_eq!(o.workspace_manager.get_active_workspace_id(), Some(created.id));
    assert_eq!(o.get_metrics().workspace_switches, 1);

    let r = o.handle_keyboard_event(&event(ActionType::DeleteWorkspace, ActionParameters::Empty));
    assert_eq!(r, Ok(OrchestratorAction::DeleteCurrentWorkspace));
    assert_eq!(o.workspace_manager.get_workspace_count(), 0);
}

#[test]
fn switching_to_an_unknown_workspace_fails() {
    let mut o = orchestrator();
    let r = o.handle_keyboard_event(&event(ActionType::SwitchWorkspace, ActionParameters::WorkspaceId(99)));
    assert!(r.is_err());
}

#[test]
fn keyboard_created_workspaces_take_option_and_first_letter() {
    let mut o = orchestrator();
    let id = o.create_new_workspace("Music").unwrap();
    let w = o.workspace_manager.get_workspace(id).unwrap();
    assert_eq!(w.keyboard_shortcut, "opt+M");
    assert_eq!(w.description.as_deref(), Some("Workspace created via keyboard shortcut"));
    assert!(w.auto_arrange);
    assert_eq!(o.workspace_manager.get_active_workspace_id(), Some(id));
    match o.create_new_workspace("Music") {
        Err(TilleRSError::ValidationError(m)) => assert_eq!(m, "Workspace name 'Music' already exists"),
        other => panic!("unexpected: {:?}", other),
    }
    match o.create_new_workspace("Mail") {
        Err(TilleRSError::ValidationError(m)) => assert_eq!(m, "Keyboard shortcut 'opt+M' already exists"),
        other => panic!("unexpected: {:?}", other),
    }
    assert_eq!(o.workspace_manager.get_workspace_count(), 1);
}
