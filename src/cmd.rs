//! The requests the embedded frontend makes and the notification it gets.

use vstd::prelude::*;
use crate::config::AppConfig;
use crate::error::CmdError;

verus! {

/// Name of the event that carries a reloaded configuration to the frontend.
pub const CONFIG_RELOADED_EVENT: &'static str = "config-reloaded";

/// Severity of a line the frontend logs.
#[derive(Debug, Clone, Copy, PartialEq, Eq, Structural)]
pub enum Level {
    Trace,
    Debug,
    Info,
    Warn,
    Error,
}

/// The level a frontend log line is written at: the one given, else `Info`.
pub fn log_level(level: Option<Level>) -> (r: Level)
    ensures
        r == (match level {
            Some(l) => l,
            None => Level::Info,
        }),
{
    match level {
        Some(l) => l,
        None => Level::Info,
    }
}

/// Answers the frontend's request for the configuration: a copy of the
/// shared value, or `Internal` when the shared slot could not be locked
/// (`current` is `None`).
pub fn config(current: Option<&AppConfig>) -> (r: Result<AppConfig, CmdError>)
    ensures
        (match current {
            Some(c) => r == Ok::<AppConfig, CmdError>(*c),
            None => r == Err::<AppConfig, CmdError>(CmdError::Internal),
        }),
{
    match current {
        Some(c) => Ok(c.clone()),
        None => Err(CmdError::Internal),
    }
}

} // verus!
