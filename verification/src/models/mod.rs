//! Data models of the window manager.

pub mod keyboard_mapping;
pub mod workspace;
pub mod window_rule;
pub mod tiling_pattern;
pub mod monitor_configuration;
pub mod application_profile;
