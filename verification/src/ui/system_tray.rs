//! System tray: its configuration, the status it shows and how that status
//! follows from the system's health, its title and menu texts, and when it
//! hides. Drawing the tray happens outside.

use vstd::prelude::*;
use crate::error_recovery::HealthStatus;
use crate::text::{owned, push_str, push_decimal, decimal};

verus! {

/// System tray configuration.
#[derive(Debug, Clone, Copy, PartialEq, Eq)]
pub struct SystemTrayConfig {
    /// Whether to show the tray icon
    pub show_icon: bool,
    /// Whether to show workspace count in the icon
    pub show_workspace_count: bool,
    /// Whether to show status indicators
    pub show_status_indicators: bool,
    /// Auto-hide when all permissions are granted
    pub auto_hide_when_healthy: bool,
    /// Update interval for status information
    pub update_interval_secs: u64,
}

impl Default for SystemTrayConfig {
    fn default() -> (c: Self)
        ensures
            c.show_icon && c.show_workspace_count && c.show_status_indicators,
            !c.auto_hide_when_healthy,
            c.update_interval_secs == 5,
    {
        SystemTrayConfig {
            show_icon: true,
            show_workspace_count: true,
            show_status_indicators: true,
            auto_hide_when_healthy: false,
            update_interval_secs: 5,
        }
    }
}

/// System tray status.
#[derive(Debug, Clone, Copy, PartialEq, Eq, Structural)]
pub enum TrayStatus {
    /// All systems operational
    Healthy,
    /// Missing permissions
    PermissionsRequired,
    /// System errors or circuit breakers active
    Degraded,
    /// Critical errors
    Error,
}

/// The icon of a status.
pub open spec fn status_icon(s: TrayStatus) -> Seq<char> {
    match s {
        TrayStatus::Healthy => "✓"@,
        TrayStatus::PermissionsRequired => "⚠"@,
        TrayStatus::Degraded => "⚡"@,
        TrayStatus::Error => "✗"@,
    }
}

/// The description of a status.
pub open spec fn status_description(s: TrayStatus) -> Seq<char> {
    match s {
        TrayStatus::Healthy => "TilleRS is running normally"@,
        TrayStatus::PermissionsRequired => "Permissions required"@,
        TrayStatus::Degraded => "Running with limited functionality"@,
        TrayStatus::Error => "TilleRS has encountered errors"@,
    }
}

impl TrayStatus {
    /// The icon character for this status.
    pub fn icon_char(&self) -> (r: &'static str)
        ensures
            r@ == status_icon(*self),
    {
        match self {
            TrayStatus::Healthy => "✓",
            TrayStatus::PermissionsRequired => "⚠",
            TrayStatus::Degraded => "⚡",
            TrayStatus::Error => "✗",
        }
    }

    /// A human-readable description.
    pub fn description(&self) -> (r: &'static str)
        ensures
            r@ == status_description(*self),
    {
        match self {
            TrayStatus::Healthy => "TilleRS is running normally",
            TrayStatus::PermissionsRequired => "Permissions required",
            TrayStatus::Degraded => "Running with limited functionality",
            TrayStatus::Error => "TilleRS has encountered errors",
        }
    }
}

/// The status the tray shows for a health status: permissions first, then
/// open circuits.
pub open spec fn status_for_health(h: HealthStatus) -> TrayStatus {
    if !h.permissions_granted {
        TrayStatus::PermissionsRequired
    } else if h.active_circuit_breakers@.len() != 0 {
        TrayStatus::Degraded
    } else {
        TrayStatus::Healthy
    }
}

/// The status the tray shows for a health status.
pub fn determine_tray_status(health: &HealthStatus) -> (s: TrayStatus)
    ensures
        s == status_for_health(*health),
{
    if !health.permissions_granted {
        TrayStatus::PermissionsRequired
    } else if health.active_circuit_breakers.len() != 0 {
        TrayStatus::Degraded
    } else {
        TrayStatus::Healthy
    }
}

/// The tray's title: the status icon and the name, with the workspace
/// count when it is shown.
pub open spec fn title_text(s: TrayStatus, show_count: bool, workspaces: nat) -> Seq<char> {
    if show_count {
        status_icon(s) + " TilleRS ("@ + decimal(workspaces) + ")"@
    } else {
        status_icon(s) + " TilleRS"@
    }
}

/// The tray's title.
pub fn tray_title(config: &SystemTrayConfig, status: TrayStatus, workspace_count: usize) -> (r: String)
    ensures
        r@ == title_text(status, config.show_workspace_count, workspace_count as nat),
{
    let mut t = owned(status.icon_char());
    if config.show_workspace_count {
        push_str(&mut t, " TilleRS (");
        push_decimal(&mut t, workspace_count as u64);
        push_str(&mut t, ")");
    } else {
        push_str(&mut t, " TilleRS");
    }
    t
}

/// The status line of the tray's menu.
pub fn status_menu_text(status: TrayStatus) -> (r: String)
    ensures
        r@ == "Status: "@ + status_description(status),
{
    let mut t = owned("Status: ");
    push_str(&mut t, status.description());
    t
}

/// The workspace line of the tray's menu.
pub fn workspace_menu_text(workspace_count: usize) -> (r: String)
    ensures
        r@ == "Workspaces: "@ + decimal(workspace_count as nat),
{
    let mut t = owned("Workspaces: ");
    push_decimal(&mut t, workspace_count as u64);
    t
}

/// Whether the tray is shown for a status, when the configuration lets it
/// hide: hidden exactly while healthy. Without auto-hiding nothing changes.
pub fn tray_visibility(config: &SystemTrayConfig, status: TrayStatus) -> (r: Option<bool>)
    ensures
        r == if config.auto_hide_when_healthy {
            Some(status != TrayStatus::Healthy)
        } else {
            None
        },
{
    if config.auto_hide_when_healthy {
        Some(status != TrayStatus::Healthy)
    } else {
        None
    }
}

/// The tray's state: its configuration, whether its item is installed, and
/// the status it shows.
#[derive(Debug, Clone, Copy)]
pub struct SystemTrayManager {
    pub config: SystemTrayConfig,
    pub installed: bool,
    pub current_status: TrayStatus,
}

impl SystemTrayManager {
    /// A tray not installed yet, showing a healthy status.
    pub fn new(config: SystemTrayConfig) -> (s: Self)
        ensures
            s.config == config,
            !s.installed,
            s.current_status == TrayStatus::Healthy,
    {
        SystemTrayManager { config, installed: false, current_status: TrayStatus::Healthy }
    }

    /// Whether initializing installs the tray item (the icon is enabled).
    pub fn should_install(&self) -> (b: bool)
        ensures
            b == self.config.show_icon,
    {
        self.config.show_icon
    }

    /// Records that the tray item is installed or removed.
    pub fn set_installed(&mut self, installed: bool)
        ensures
            final(self).installed == installed,
            final(self).config == old(self).config,
            final(self).current_status == old(self).current_status,
    {
        self.installed = installed;
    }

    /// Takes the current health: an installed tray switches to the status it
    /// implies; answers whether the shown status changed (the title and menu
    /// are then redrawn).
    pub fn update_status(&mut self, health: &HealthStatus) -> (changed: bool)
        ensures
            final(self).config == old(self).config,
            final(self).installed == old(self).installed,
            changed == (old(self).installed && status_for_health(*health) != old(self).current_status),
            final(self).current_status == if changed {
                status_for_health(*health)
            } else {
                old(self).current_status
            },
    {
        if !self.installed {
            return false;
        }
        let new_status = determine_tray_status(health);
        if new_status != self.current_status {
            self.current_status = new_status;
            true
        } else {
            false
        }
    }
}

} // verus!
