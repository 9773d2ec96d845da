//! Core services of the window manager.

pub mod keyboard_handler;
pub mod workspace_manager;
pub mod window_manager;
pub mod tiling_engine;
pub mod workspace_orchestrator;
