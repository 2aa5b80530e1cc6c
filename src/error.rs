//! Errors reported to the frontend.

use vstd::prelude::*;

verus! {

/// Why a frontend request failed.
#[derive(Debug, Clone, Copy, PartialEq, Eq, Structural)]
pub enum CmdError {
    /// The application framework failed.
    Tauri,
    /// The shared configuration could not be read.
    Internal,
    /// Any other failure.
    Unknown,
}

impl CmdError {
    /// A short description of the error.
    pub fn message(&self) -> (r: &'static str)
        ensures
            r@ == (match *self {
                CmdError::Tauri => "tauri error"@,
                CmdError::Internal => "internal error"@,
                CmdError::Unknown => "unknown error"@,
            }),
    {
        match self {
            CmdError::Tauri => "tauri error",
            CmdError::Internal => "internal error",
            CmdError::Unknown => "unknown error",
        }
    }
}

} // verus!
