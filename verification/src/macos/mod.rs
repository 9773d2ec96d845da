//! The macOS side of the window manager as the rest of the library sees it:
//! windows reported by the Accessibility API, the providers that report
//! them, and the System Settings panes that grant the permissions.

pub mod accessibility;
pub mod permissions;
