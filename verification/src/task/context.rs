//! Levels of the log records a task writes, and a task's check for
//! cancellation.

use crate::error::{FlovynError, FlovynErrorView};
use vstd::prelude::*;

verus! {

/// The level of a task's log record.
#[derive(Debug, Clone, Copy, PartialEq, Eq, Structural)]
pub enum LogLevel {
    Debug,
    Info,
    Warn,
    Error,
}

/// The name under which a level is reported.
pub open spec fn log_level_name(level: LogLevel) -> Seq<char> {
    match level {
        LogLevel::Debug => "DEBUG"@,
        LogLevel::Info => "INFO"@,
        LogLevel::Warn => "WARN"@,
        LogLevel::Error => "ERROR"@,
    }
}

impl LogLevel {
    /// The name under which the level is reported.
    pub fn as_str(&self) -> (r: &'static str)
        ensures
            r@ == log_level_name(*self),
    {
        match self {
            LogLevel::Debug => "DEBUG",
            LogLevel::Info => "INFO",
            LogLevel::Warn => "WARN",
            LogLevel::Error => "ERROR",
        }
    }
}

/// The answer to a task's check for cancellation: `TaskCancelled` once
/// cancellation was requested, `Ok(())` before.
pub fn check_cancelled(cancelled: bool) -> (r: Result<(), FlovynError>)
    ensures
        match r {
            Ok(()) => !cancelled,
            Err(e) => cancelled && e@ == FlovynErrorView::TaskCancelled,
        },
{
    if cancelled {
        Err(FlovynError::TaskCancelled)
    } else {
        Ok(())
    }
}

} // verus!
