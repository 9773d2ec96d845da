//! TilleRS: a keyboard-first tiling window manager for macOS.
//!
//! This crate holds the verified core of the window manager: the keyboard
//! shortcut model, workspaces and their manager, window rules, tiling layouts,
//! configuration validation, error recovery decisions and the small status
//! models around them.

pub mod text;
pub mod ids;
pub mod models;
pub mod services;
pub mod logging;
pub mod permissions;
pub mod table;
pub mod error_recovery;
pub mod ui;
pub mod lifecycle;
pub mod regex_support;
pub mod config;
pub mod macos;
pub mod api;
pub mod cli;

use vstd::prelude::*;

verus! {

/// Error types specific to TilleRS operations.
#[derive(Debug, Clone, PartialEq, Eq)]
pub enum TilleRSError {
    PermissionDenied(String),
    WindowNotFound(u32),
    WorkspaceNotFound(String),
    ConfigurationError(String),
    MacOSAPIError(String),
    ValidationError(String),
}

/// The message of an error.
pub open spec fn error_message(e: TilleRSError) -> Seq<char> {
    match e {
        TilleRSError::PermissionDenied(s) => "Permission denied: "@ + s@,
        TilleRSError::WindowNotFound(id) => "Window not found: "@ + text::decimal(id as nat),
        TilleRSError::WorkspaceNotFound(s) => "Workspace not found: "@ + s@,
        TilleRSError::ConfigurationError(s) => "Configuration error: "@ + s@,
        TilleRSError::MacOSAPIError(s) => "macOS API error: "@ + s@,
        TilleRSError::ValidationError(s) => "Validation error: "@ + s@,
    }
}

impl TilleRSError {
    /// The human-readable message of this error.
    pub fn message(&self) -> (m: String)
        ensures
            m@ == error_message(*self),
    {
        match self {
            TilleRSError::PermissionDenied(s) => {
                let mut m = text::owned("Permission denied: ");
                text::push_str(&mut m, s.as_str());
                m
            },
            TilleRSError::WindowNotFound(id) => {
                let mut m = text::owned("Window not found: ");
                text::push_decimal(&mut m, *id as u64);
                m
            },
            TilleRSError::WorkspaceNotFound(s) => {
                let mut m = text::owned("Workspace not found: ");
                text::push_str(&mut m, s.as_str());
                m
            },
            TilleRSError::ConfigurationError(s) => {
                let mut m = text::owned("Configuration error: ");
                text::push_str(&mut m, s.as_str());
                m
            },
            TilleRSError::MacOSAPIError(s) => {
                let mut m = text::owned("macOS API error: ");
                text::push_str(&mut m, s.as_str());
                m
            },
            TilleRSError::ValidationError(s) => {
                let mut m = text::owned("Validation error: ");
                text::push_str(&mut m, s.as_str());
                m
            },
        }
    }
}

} // verus!
