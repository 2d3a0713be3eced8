//! The ways in which starting a capture session can fail.

use vstd::prelude::*;

verus! {

/// Why a capture session could not be started. Each is reported once, when
/// the session ends.
#[derive(Debug, PartialEq, Eq, Structural, Clone, Copy)]
pub enum ListenError {
    /// No display could be opened.
    MissingDisplay,
    /// The display does not offer the recording extension.
    ExtensionUnavailable,
    /// The range of events to record could not be described.
    CreateRangeFailed,
    /// The display refused to create a recording context.
    CreateContextFailed,
    /// The display refused to enable the recording context.
    EnableFailed,
    /// This build cannot capture keys on this platform.
    UnsupportedPlatform,
}

impl ListenError {
    /// The name of the failure.
    pub open spec fn name(self) -> Seq<char> {
        match self {
            ListenError::MissingDisplay => "MissingDisplay"@,
            ListenError::ExtensionUnavailable => "ExtensionUnavailable"@,
            ListenError::CreateRangeFailed => "CreateRangeFailed"@,
            ListenError::CreateContextFailed => "CreateContextFailed"@,
            ListenError::EnableFailed => "EnableFailed"@,
            ListenError::UnsupportedPlatform => "UnsupportedPlatform"@,
        }
    }

    /// The name of the failure, for messages.
    pub fn as_str(&self) -> (r: &'static str)
        ensures
            r@ == self.name(),
    {
        match self {
            ListenError::MissingDisplay => "MissingDisplay",
            ListenError::ExtensionUnavailable => "ExtensionUnavailable",
            ListenError::CreateRangeFailed => "CreateRangeFailed",
            ListenError::CreateContextFailed => "CreateContextFailed",
            ListenError::EnableFailed => "EnableFailed",
            ListenError::UnsupportedPlatform => "UnsupportedPlatform",
        }
    }
}

} // verus!
