//! The System Settings privacy panes where the user grants the permissions.

use vstd::prelude::*;

verus! {

/// A privacy pane of System Settings.
#[derive(Debug, Clone, Copy, PartialEq, Eq, Structural)]
pub enum PrivacyPane {
    Accessibility,
    InputMonitoring,
    ScreenRecording,
}

/// The URL that opens a pane.
pub open spec fn pane_url(pane: PrivacyPane) -> Seq<char> {
    match pane {
        PrivacyPane::Accessibility => "x-apple.systempreferences:com.apple.preference.security?Privacy_Accessibility"@,
        PrivacyPane::InputMonitoring => "x-apple.systempreferences:com.apple.preference.security?Privacy_ListenEvents"@,
        PrivacyPane::ScreenRecording => "x-apple.systempreferences:com.apple.preference.security?Privacy_ScreenCapture"@,
    }
}

impl PrivacyPane {
    /// The URL that opens this pane.
    pub fn url(self) -> (u: &'static str)
        ensures
            u@ == pane_url(self),
    {
        match self {
            PrivacyPane::Accessibility => "x-apple.systempreferences:com.apple.preference.security?Privacy_Accessibility",
            PrivacyPane::InputMonitoring => "x-apple.systempreferences:com.apple.preference.security?Privacy_ListenEvents",
            PrivacyPane::ScreenRecording => "x-apple.systempreferences:com.apple.preference.security?Privacy_ScreenCapture",
        }
    }
}

} // verus!
