//! Window management API: moving the focus, moving, resizing and floating
//! windows, listing them and applying window rules. Option-key shortcuts
//! drive these operations.

use vstd::prelude::*;

verus! {

/// Move focus to a different window.
#[derive(Debug)]
pub struct MoveFocusRequest {
    pub direction: FocusDirection,
    /// Whether the focus wraps to the opposite edge at a boundary
    pub wrap_around: bool,
}

#[derive(Debug)]
pub struct MoveFocusResponse {
    pub previous_window_id: Option<String>,
    pub new_window_id: Option<String>,
    pub focus_change_duration_ms: u64,
}

/// Move a window within the tiling layout.
#[derive(Debug)]
pub struct MoveWindowRequest {
    pub window_id: String,
    pub direction: MoveDirection,
    /// Whether to swap with the target (otherwise other windows are pushed)
    pub swap_with_target: bool,
}

#[derive(Debug)]
pub struct MoveWindowResponse {
    pub new_position: TilePosition,
    pub affected_windows: Vec<WindowPositionChange>,
    pub move_duration_ms: u64,
}

#[derive(Debug)]
pub struct ResizeWindowResponse {
    pub new_size: WindowSize,
    pub affected_windows: Vec<WindowPositionChange>,
    pub resize_duration_ms: u64,
}

/// Toggle a window between tiled and floating modes.
#[derive(Debug)]
pub struct ToggleFloatRequest {
    pub window_id: String,
    /// When floating, whether to remember the tile position
    pub restore_to_tile: bool,
}

#[derive(Debug)]
pub struct ToggleFloatResponse {
    pub new_mode: WindowMode,
    pub previous_position: Option<TilePosition>,
    pub new_position: WindowPosition,
}

/// Get information about a specific window.
#[derive(Debug)]
pub struct GetWindowInfoRequest {
    pub window_id: String,
}

#[derive(Debug)]
pub struct GetWindowInfoResponse {
    pub window: WindowInfo,
    pub current_workspace: String,
    pub tiling_status: TilingStatus,
}

/// List the windows of a workspace.
#[derive(Debug)]
pub struct ListWindowsRequest {
    /// The workspace; the current one when absent
    pub workspace_id: Option<String>,
    pub include_hidden: bool,
    pub sort_by: Option<WindowSortField>,
}

#[derive(Debug)]
pub struct ListWindowsResponse {
    pub windows: Vec<WindowSummary>,
    pub workspace_id: String,
    pub total_count: u32,
}

/// Apply window rules to some windows or to all.
#[derive(Debug)]
pub struct ApplyWindowRulesRequest {
    /// The windows; all windows when absent
    pub window_ids: Option<Vec<String>>,
    pub force_reapply: bool,
}

#[derive(Debug)]
pub struct ApplyWindowRulesResponse {
    pub rules_applied: u32,
    pub windows_affected: Vec<String>,
    pub errors: Vec<WindowRuleError>,
}

#[derive(Debug)]
pub enum FocusDirection {
    Left,
    Right,
    Up,
    Down,
    /// The next window in order, cyclically
    Next,
    /// The previous window in order, cyclically
    Previous,
}

#[derive(Debug)]
pub enum MoveDirection {
    Left,
    Right,
    Up,
    Down,
    /// A given tile position
    ToPosition(TilePosition),
}

#[derive(Debug)]
pub enum ResizeType {
    /// Make the window larger
    Grow,
    /// Make the window smaller
    Shrink,
    /// Set a given size
    SetTo,
}

#[derive(Debug)]
pub enum WindowMode {
    Tiled,
    Floating,
    Fullscreen,
    Minimized,
}

#[derive(Debug)]
pub struct TilePosition {
    pub column: u32,
    pub row: u32,
    pub span_columns: u32,
    pub span_rows: u32,
}

#[derive(Debug)]
pub struct WindowPosition {
    pub x: i32,
    pub y: i32,
    pub width: u32,
    pub height: u32,
}

#[derive(Debug)]
pub struct WindowSize {
    pub width: u32,
    pub height: u32,
}

#[derive(Debug)]
pub struct WindowInfo {
    pub id: String,
    pub title: String,
    pub application_name: String,
    pub bundle_id: String,
    pub position: WindowPosition,
    pub mode: WindowMode,
    pub is_focused: bool,
    pub is_visible: bool,
    pub workspace_id: String,
}

#[derive(Debug)]
pub struct WindowSummary {
    pub id: String,
    pub title: String,
    pub application_name: String,
    pub mode: WindowMode,
    pub is_focused: bool,
    pub tile_position: Option<TilePosition>,
}

#[derive(Debug)]
pub struct WindowPositionChange {
    pub window_id: String,
    pub old_position: WindowPosition,
    pub new_position: WindowPosition,
}

#[derive(Debug)]
pub enum TilingStatus {
    Tiled { position: TilePosition },
    Floating,
    /// The window is ignored by the tiling system
    Excluded,
}

#[derive(Debug)]
pub enum WindowSortField {
    Title,
    ApplicationName,
    LastFocused,
    Position,
    Size,
}

#[derive(Debug)]
pub enum WindowRuleError {
    ApplicationNotFound { bundle_id: String },
    WindowNotFound { window_id: String },
    InvalidRule { rule_id: String, reason: String },
    PermissionDenied { required_permission: String },
    TilingFailed { window_id: String, details: String },
}

/// Errors of window operations.
#[derive(Debug)]
pub enum WindowError {
    NotFound { window_id: String },
    NotAccessible { window_id: String, reason: String },
    InvalidOperation { operation: String, reason: String },
    TilingNotAvailable { workspace_id: String },
    ResizeFailed { window_id: String, details: String },
    MoveFailed { window_id: String, details: String },
    PermissionDenied { required_permission: String },
}

} // verus!
