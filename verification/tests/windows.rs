use tillers::macos::accessibility::{AXWindow, InMemoryAccessibilityProvider, PermissionStatus, SystemAccessibilityProvider};
use tillers::macos::permissions::PrivacyPane;
use tillers::services::tiling_engine::TilingEngine;
use tillers::services::window_manager::{WindowManager, WindowMode};
use tillers::models::tiling_pattern::{LayoutAlgorithm, TilingPattern};
use tillers::TilleRSError;

/// A frame: x, y, width, height in display points.
type Frame = (f64, f64, f64, f64);

fn sample_window(window_id: u32, minimized: bool) -> AXWindow<Frame> {
    AXWindow::new(
        window_id,
        &format!("Window {window_id}"),
        "App",
        "com.example.app",
        (0.0, 0.0, 1280.0, 720.0),
        minimized,
        false,
        false,
        Some("MOCK".to_string()),
    )
}

fn editor_window() -> AXWindow<Frame> {
    AXWindow::new(
        1,
        "Editor",
        "Code",
        "com.example.code",
        (100.0, 100.0, 1200.0, 800.0),
        false,
        false,
        true,
        Some("PRIMARY".to_string()),
    )
}

#[test]
fn in_memory_provider_list_filters_minimized() {
    let provider = InMemoryAccessibilityProvider::new_with(vec![sample_window(1, false), sample_window(2, true)]);

    let visible = provider.list_windows(false).unwrap();
    assert_eq!(visible.len(), 1);
    assert_eq!(visible[0].window_id, 1);

    let all = provider.list_windows(true).unwrap();
    assert_eq!(all.len(), 2);
}

#[test]
fn in_memory_provider_focus_updates_state() {
    let mut provider = InMemoryAccessibilityProvider::new_with(vec![sample_window(1, false), sample_window(2, false)]);

    provider.focus_window(2).unwrap();

    let win1 = provider.get_window(1).unwrap().unwrap();
    let win2 = provider.get_window(2).unwrap().unwrap();
    assert!(!win1.is_focused);
    assert!(win2.is_focused);
}

#[test]
fn in_memory_provider_respects_permission_status() {
    let mut provider: InMemoryAccessibilityProvider<Frame> = InMemoryAccessibilityProvider::default();
    provider.set_permission_status(PermissionStatus::Denied);

    let result = provider.ensure_permissions();
    assert!(result.is_err());
}

#[test]
fn in_memory_provider_lists_in_id_order_and_reports_missing_windows() {
    let mut provider = InMemoryAccessibilityProvider::new_with(vec![sample_window(9, false), sample_window(3, false), sample_window(5, false)]);
    let ids: Vec<u32> = provider.list_windows(true).unwrap().iter().map(|w| w.window_id).collect();
    assert_eq!(ids, vec![3, 5, 9]);
    assert_eq!(provider.focus_window(4), Err(TilleRSError::WindowNotFound(4)));
    assert_eq!(provider.set_window_frame(4, (0.0, 0.0, 1.0, 1.0), false), Err(TilleRSError::WindowNotFound(4)));
    provider.set_window_minimized(5, true).unwrap();
    assert_eq!(provider.list_windows(false).unwrap().len(), 2);
}

#[test]
fn system_provider_needs_granted_permission() {
    let provider = SystemAccessibilityProvider::new();
    assert_eq!(provider.permission_status(), PermissionStatus::Unknown);
    assert_eq!(
        provider.ensure_permissions(),
        Err(TilleRSError::PermissionDenied("Accessibility permission is required for window management".to_string()))
    );
    let listed: Result<Vec<AXWindow<Frame>>, TilleRSError> = provider.list_windows(true);
    assert!(matches!(listed, Err(TilleRSError::MacOSAPIError(_))));
}

#[test]
fn privacy_pane_urls() {
    assert_eq!(
        PrivacyPane::Accessibility.url(),
        "x-apple.systempreferences:com.apple.preference.security?Privacy_Accessibility"
    );
    assert_eq!(
        PrivacyPane::InputMonitoring.url(),
        "x-apple.systempreferences:com.apple.preference.security?Privacy_ListenEvents"
    );
}

fn manager_with(provider: &InMemoryAccessibilityProvider<Frame>) -> WindowManager<Frame> {
    let mut manager = WindowManager::new();
    manager.refresh_cache(provider.list_windows(true)).unwrap();
    manager
}

#[test]
fn list_windows_returns_cached_entries() {
    let provider = InMemoryAccessibilityProvider::new_with(vec![editor_window()]);
    let manager = manager_with(&provider);

    let windows = manager.list_windows(false, None);
    assert_eq!(windows.len(), 1);
    assert_eq!(windows[0].title, "Editor");
    assert_eq!(windows[0].mode, WindowMode::Tiled);
    assert_eq!(manager.metrics().refresh_count, 1);
}

#[test]
fn focus_window_updates_cache() {
    let mut provider = InMemoryAccessibilityProvider::new_with(vec![editor_window(), sample_window(2, false)]);
    let mut manager = manager_with(&provider);

    let outcome = provider.focus_window(2);
    manager.focus_window(2, outcome).unwrap();
    let window = manager.get_window(2).unwrap();
    assert!(window.is_focused);
    assert!(!manager.get_window(1).unwrap().is_focused);

    let metrics = manager.metrics();
    assert_eq!(metrics.focus_events, 1);
}

#[test]
fn toggle_floating_switches_mode() {
    let provider = InMemoryAccessibilityProvider::new_with(vec![editor_window()]);
    let mut manager = manager_with(&provider);

    assert_eq!(manager.toggle_floating(1), Some(WindowMode::Floating));
    assert_eq!(manager.toggle_floating(1), Some(WindowMode::Tiled));
    assert_eq!(manager.toggle_floating(7), None);
    assert_eq!(manager.toggle_floating_after_refresh(7), Err(TilleRSError::WindowNotFound(7)));
    assert_eq!(manager.metrics().error_count, 1);
}

#[test]
fn set_window_frame_updates_position() {
    let mut provider = InMemoryAccessibilityProvider::new_with(vec![editor_window()]);
    let mut manager = manager_with(&provider);

    let new_frame = (200.0, 300.0, 800.0, 600.0);
    let outcome = provider.set_window_frame(1, new_frame, false);
    assert_eq!(manager.set_window_frame(1, new_frame, outcome), Ok(true));

    let window = manager.get_window(1).unwrap();
    assert_eq!(window.frame.0, 200.0);
    assert_eq!(window.frame.2, 800.0);
    assert_eq!(manager.metrics().move_events, 1);
}

#[test]
fn set_window_minimized_updates_state() {
    let mut provider = InMemoryAccessibilityProvider::new_with(vec![editor_window()]);
    let mut manager = manager_with(&provider);

    let outcome = provider.set_window_minimized(1, true);
    assert_eq!(manager.set_window_minimized(1, true, outcome), Ok(true));

    let window = manager.get_window(1).unwrap();
    assert!(window.is_minimized);
    assert!(manager.list_windows(false, None).is_empty());
}

#[test]
fn provider_errors_leave_the_cache_and_are_counted() {
    let provider = InMemoryAccessibilityProvider::new_with(vec![editor_window()]);
    let mut manager = manager_with(&provider);
    let err = Err(TilleRSError::WindowNotFound(1));
    assert_eq!(manager.focus_window(1, err.clone()), err);
    assert!(manager.get_window(1).unwrap().is_focused);
    assert_eq!(manager.refresh_cache(Err(TilleRSError::MacOSAPIError("down".to_string()))).is_err(), true);
    assert_eq!(manager.list_windows(true, None).len(), 1);
    assert_eq!(manager.metrics().error_count, 2);
}

#[test]
fn listing_filters_by_monitor_and_keeps_id_order() {
    let mut a = sample_window(8, false);
    a.monitor_id = Some("LEFT".to_string());
    let mut b = sample_window(2, false);
    b.monitor_id = Some("RIGHT".to_string());
    let c = sample_window(5, false);
    let fullscreen = AXWindow::new(4, "Movie", "Player", "com.example.player", (0.0, 0.0, 10.0, 10.0), false, true, false, None);
    let mut manager = WindowManager::new();
    manager.refresh_cache(Ok(vec![a, b, c, fullscreen])).unwrap();
    let ids: Vec<u32> = manager.list_windows(true, None).iter().map(|w| w.id).collect();
    assert_eq!(ids, vec![2, 4, 5, 8]);
    let right: Vec<u32> = manager.list_windows(true, Some("RIGHT")).iter().map(|w| w.id).collect();
    assert_eq!(right, vec![2]);
    assert_eq!(manager.get_window(4).unwrap().mode, WindowMode::Fullscreen);
    assert_eq!(manager.toggle_floating(4), Some(WindowMode::Fullscreen));
}

#[test]
fn refresh_keeps_the_later_of_two_windows_with_one_id() {
    let first = sample_window(3, false);
    let mut second = sample_window(3, true);
    second.title = "Later".to_string();
    let mut manager = WindowManager::new();
    manager.refresh_cache(Ok(vec![first, second])).unwrap();
    assert_eq!(manager.list_windows(true, None).len(), 1);
    assert_eq!(manager.get_window(3).unwrap().title, "Later");
}

fn pattern(algorithm: LayoutAlgorithm) -> TilingPattern {
    TilingPattern { layout_algorithm: algorithm, ..Default::default() }
}

#[test]
fn empty_window_list_returns_error() {
    let mut engine = TilingEngine::new();
    let error = engine
        .layout_windows::<Frame>(&vec![], &pattern(LayoutAlgorithm::Columns), Ok(vec![]))
        .unwrap_err();
    assert!(error.message().contains("At least one window"));
    assert_eq!(engine.metrics().layout_requests, 0);
}

#[test]
fn layout_pairs_windows_with_frames_and_counts() {
    let mut engine = TilingEngine::new();
    let frames: Vec<Frame> = vec![(0.0, 0.0, 10.0, 10.0), (10.0, 0.0, 10.0, 10.0)];
    let layouts = engine.layout_windows(&vec![7, 9], &pattern(LayoutAlgorithm::Grid), Ok(frames)).unwrap();
    assert_eq!(layouts.len(), 2);
    assert_eq!(layouts[1].window_id, 9);
    assert_eq!(layouts[1].frame.0, 10.0);
    let m = engine.metrics();
    assert_eq!(m.layout_requests, 1);
    assert_eq!(m.last_window_count, 2);
    assert_eq!(m.last_algorithm, Some(LayoutAlgorithm::Grid));
    let failed: Result<Vec<Frame>, TilleRSError> = Err(TilleRSError::ValidationError("too small".to_string()));
    assert!(engine.layout_windows(&vec![1], &pattern(LayoutAlgorithm::Grid), failed).is_err());
    assert_eq!(engine.metrics().layout_requests, 1);
}
