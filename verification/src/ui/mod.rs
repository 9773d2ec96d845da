//! User interface models.

pub mod system_tray;
