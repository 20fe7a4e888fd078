//! What a workflow hands to the service that submits its tasks.

use vstd::prelude::*;
use core::time::Duration;
use crate::common::time::secs_duration;
use crate::error::{FlovynError, FlovynErrorView};
use crate::workflow::context::ScheduleTaskOptions;

verus! {

/// Options of a task submission.
#[derive(Debug, Clone)]
pub struct TaskSubmitOptions {
    /// Maximum retries of the task.
    pub max_retries: u32,
    /// The task's timeout.
    pub timeout: Duration,
    /// The task queue.
    pub queue: Option<String>,
    /// Priority in seconds.
    pub priority_seconds: Option<i32>,
}

impl Default for TaskSubmitOptions {
    /// No retries, a zero timeout, no queue and no priority.
    fn default() -> (r: Self)
        ensures
            r.max_retries == 0,
            r.timeout == secs_duration(0),
            r.queue is None,
            r.priority_seconds is None,
    {
        TaskSubmitOptions {
            max_retries: 0,
            timeout: Duration::from_secs(0),
            queue: None,
            priority_seconds: None,
        }
    }
}

impl TaskSubmitOptions {
    /// The submission options of a task scheduled with `options`: three
    /// retries and a five-minute timeout unless they are set.
    pub fn from_schedule_options(options: ScheduleTaskOptions) -> (r: Self)
        ensures
            r.max_retries == match options.max_retries {
                Some(m) => m,
                None => 3,
            },
            r.timeout == match options.timeout {
                Some(d) => d,
                None => secs_duration(300),
            },
            r.queue == options.queue,
            r.priority_seconds == options.priority_seconds,
    {
        TaskSubmitOptions {
            max_retries: match options.max_retries {
                Some(m) => m,
                None => 3,
            },
            timeout: match options.timeout {
                Some(d) => d,
                None => Duration::from_secs(300),
            },
            queue: options.queue,
            priority_seconds: options.priority_seconds,
        }
    }
}

/// The error of submitting a task when no submitter is configured.
pub open spec fn not_configured(task_type: Seq<char>) -> FlovynErrorView {
    FlovynErrorView::Other(
        "TaskSubmitter is not configured. Cannot schedule task '"@ + task_type + "'"@,
    )
}

/// A task submitter that is not configured: every submission fails.
#[derive(Debug, Clone, Copy)]
pub struct NoOpTaskSubmitter;

impl NoOpTaskSubmitter {
    /// Fail to submit a task of `task_type`.
    pub fn submit_task(
        &self,
        workflow_execution_id: u128,
        tenant_id: u128,
        task_type: &str,
        input: String,
        options: TaskSubmitOptions,
    ) -> (r: Result<u128, FlovynError>)
        ensures
            r matches Err(e) && e@ == not_configured(task_type@),
    {
        Err(
            FlovynError::Other(
                String::from_str("TaskSubmitter is not configured. Cannot schedule task '").concat(
                    task_type,
                ).concat("'"),
            ),
        )
    }
}

} // verus!
