//! Errors of the platform screen-recording permission check. The check
//! itself talks to the operating system and lives outside this crate;
//! these are the outcomes it reports.

use vstd::prelude::*;
use vstd::string::StringExecFns;

verus! {

/// Why screen recording cannot proceed on this machine.
#[derive(Debug, Clone, PartialEq, Eq)]
pub enum PermissionError {
    /// The platform offers no supported capture interface.
    PlatformNotSupported,
    /// The user has not granted the screen-recording permission.
    PermissionDenied,
}

pub type PermissionResult<T> = Result<T, PermissionError>;

/// The human-readable rendering of a permission error.
pub open spec fn render_permission_error(e: PermissionError) -> Seq<char> {
    match e {
        PermissionError::PlatformNotSupported => "Platform not supported"@,
        PermissionError::PermissionDenied => "Permission not granted"@,
    }
}

impl PermissionError {
    /// Renders the error as human-readable text.
    pub fn render(&self) -> (r: String)
        ensures
            r@ == render_permission_error(*self),
    {
        match self {
            PermissionError::PlatformNotSupported => {
                String::from_str("Platform not supported")
            },
            PermissionError::PermissionDenied => {
                String::from_str("Permission not granted")
            },
        }
    }
}

} // verus!
