//! The requests, responses and errors of the window and workspace
//! management API.

pub mod window;
pub mod workspace;
