//! Workspace management API: creating, switching, updating, listing and
//! deleting workspaces. Option (⌥) is the default modifier of workspace
//! shortcuts; Command stays available for compatibility. Times are
//! milliseconds since the Unix epoch.

use vstd::prelude::*;

verus! {

/// Create a new workspace.
#[derive(Debug)]
pub struct CreateWorkspaceRequest {
    pub name: String,
    pub description: Option<String>,
    /// Keyboard shortcut, with Option as the default modifier
    pub keyboard_shortcut: KeyboardShortcut,
    pub tiling_pattern_id: Option<String>,
    pub auto_arrange: bool,
}

#[derive(Debug)]
pub struct CreateWorkspaceResponse {
    pub workspace_id: String,
    pub created_at: i64,
}

/// Switch to an existing workspace.
#[derive(Debug)]
pub struct SwitchWorkspaceRequest {
    pub workspace_id: String,
    pub preserve_window_state: bool,
}

#[derive(Debug)]
pub struct SwitchWorkspaceResponse {
    pub previous_workspace_id: Option<String>,
    pub switch_duration_ms: u64,
    pub windows_arranged: u32,
}

/// Update a workspace's configuration.
#[derive(Debug)]
pub struct UpdateWorkspaceRequest {
    pub workspace_id: String,
    pub name: Option<String>,
    pub description: Option<String>,
    /// New keyboard shortcut, with Option as the default modifier
    pub keyboard_shortcut: Option<KeyboardShortcut>,
    pub tiling_pattern_id: Option<String>,
    pub auto_arrange: Option<bool>,
}

#[derive(Debug)]
pub struct UpdateWorkspaceResponse {
    pub updated_at: i64,
    pub changes_applied: Vec<String>,
}

/// List all workspaces.
#[derive(Debug)]
pub struct ListWorkspacesRequest {
    pub include_inactive: bool,
    pub sort_by: Option<WorkspaceSortField>,
}

#[derive(Debug)]
pub struct ListWorkspacesResponse {
    pub workspaces: Vec<WorkspaceSummary>,
    pub active_workspace_id: Option<String>,
}

/// Delete a workspace.
#[derive(Debug)]
pub struct DeleteWorkspaceRequest {
    pub workspace_id: String,
    /// The workspace that takes the deleted workspace's windows
    pub move_windows_to: Option<String>,
}

#[derive(Debug)]
pub struct DeleteWorkspaceResponse {
    pub deleted_at: i64,
    pub windows_moved: u32,
}

#[derive(Debug)]
pub struct KeyboardShortcut {
    /// Modifier keys; Option is the default
    pub modifiers: Vec<ModifierKey>,
    /// The main key
    pub key: String,
    /// Whether the shortcut works when the application is not focused
    pub global: bool,
}

#[derive(Debug)]
pub enum ModifierKey {
    /// Option (⌥), the default modifier
    Option,
    /// Command (⌘), kept for compatibility
    Command,
    /// Control (⌃)
    Control,
    /// Shift (⇧)
    Shift,
    /// Function (fn)
    Function,
}

#[derive(Debug)]
pub struct WorkspaceSummary {
    pub id: String,
    pub name: String,
    pub description: Option<String>,
    pub window_count: u32,
    pub last_used: i64,
    pub is_active: bool,
    pub keyboard_shortcut: KeyboardShortcut,
}

#[derive(Debug)]
pub enum WorkspaceSortField {
    Name,
    LastUsed,
    WindowCount,
    CreatedAt,
}

/// Errors of workspace operations.
#[derive(Debug)]
pub enum WorkspaceError {
    NotFound { workspace_id: String },
    InvalidName { reason: String },
    DuplicateShortcut { conflicting_workspace: String },
    SystemShortcutConflict { system_shortcut: String },
    TilingPatternNotFound { pattern_id: String },
    PermissionDenied { required_permission: String },
    WindowManagementFailed { details: String },
}

} // verus!
