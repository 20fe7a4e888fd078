//! Options for scheduling work from a workflow.

use vstd::prelude::*;
use core::time::Duration;
use crate::common::text::{copy_opt_string, opt_view};

verus! {

/// Options for scheduling a task.
#[derive(Debug, Clone)]
pub struct ScheduleTaskOptions {
    /// Priority in seconds (lower = higher priority).
    pub priority_seconds: Option<i32>,
    /// Task timeout override.
    pub timeout: Option<Duration>,
    /// Task queue override.
    pub queue: Option<String>,
    /// Maximum retry attempts.
    pub max_retries: Option<u32>,
}

impl Default for ScheduleTaskOptions {
    fn default() -> (r: Self)
        ensures
            r.priority_seconds is None,
            r.timeout is None,
            r.queue is None,
            r.max_retries is None,
    {
        ScheduleTaskOptions { priority_seconds: None, timeout: None, queue: None, max_retries: None }
    }
}

impl ScheduleTaskOptions {
    /// A copy of the options.
    pub fn copy(&self) -> (r: Self)
        ensures
            r.priority_seconds == self.priority_seconds,
            r.timeout == self.timeout,
            opt_view(r.queue) == opt_view(self.queue),
            r.max_retries == self.max_retries,
    {
        ScheduleTaskOptions {
            priority_seconds: self.priority_seconds,
            timeout: self.timeout,
            queue: copy_opt_string(&self.queue),
            max_retries: self.max_retries,
        }
    }
}

} // verus!
