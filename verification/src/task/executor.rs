//! The decisions of the task executor: which task runs, with which timeout
//! and heartbeat interval, how its outcome is reported, and whether a failed
//! attempt is retried.

use vstd::prelude::*;
use core::time::Duration;
use crate::common::time::secs_duration;
use crate::common::text::opt_view;
use crate::error::{FlovynError, FlovynErrorView, error_message};
use crate::task::registry::{RegisteredTask, TaskMetadata, TaskRegistry};

verus! {

/// Configuration of task execution.
#[derive(Debug, Clone)]
pub struct TaskExecutorConfig {
    /// Timeout of a task that sets none.
    pub default_timeout: Duration,
    /// Heartbeat interval of a task that sets no heartbeat timeout.
    pub default_heartbeat_interval: Duration,
}

impl Default for TaskExecutorConfig {
    /// Five minutes' timeout, a heartbeat every thirty seconds.
    fn default() -> (r: Self)
        ensures
            r.default_timeout == secs_duration(300),
            r.default_heartbeat_interval == secs_duration(30),
    {
        TaskExecutorConfig {
            default_timeout: Duration::from_secs(300),
            default_heartbeat_interval: Duration::from_secs(30),
        }
    }
}

/// The outcome of executing a task. Payloads are JSON texts.
#[derive(Debug, Clone)]
pub enum TaskExecutionResult {
    /// The task completed.
    Completed { output: String },
    /// The task failed.
    Failed { error_message: String, error_type: Option<String>, is_retryable: bool },
    /// The task was cancelled.
    Cancelled,
    /// The task timed out.
    TimedOut,
}

/// The error type under which a task error is reported, and whether it is
/// worth retrying.
pub open spec fn error_class(e: FlovynErrorView) -> (Option<Seq<char>>, bool) {
    match e {
        FlovynErrorView::TaskCancelled => (Some("CANCELLED"@), false),
        FlovynErrorView::NetworkError(_) => (Some("NETWORK"@), true),
        FlovynErrorView::Grpc(_) => (Some("GRPC"@), true),
        FlovynErrorView::Timeout(_) => (Some("TIMEOUT"@), true),
        FlovynErrorView::InvalidInput(_) => (Some("INVALID_INPUT"@), false),
        FlovynErrorView::InvalidConfiguration(_) => (Some("INVALID_CONFIG"@), false),
        FlovynErrorView::Serialization(_) => (Some("SERIALIZATION"@), false),
        _ => (None, false),
    }
}

/// Executes registered tasks.
pub struct TaskExecutor<F> {
    registry: TaskRegistry<F>,
    config: TaskExecutorConfig,
}

impl<F> TaskExecutor<F> {
    /// An executor over `registry`.
    pub fn new(registry: TaskRegistry<F>, config: TaskExecutorConfig) -> (r: Self)
        ensures
            r.registry() == registry,
            r.config() == config,
    {
        TaskExecutor { registry, config }
    }

    /// The registry the executor runs tasks from.
    pub closed spec fn registry(&self) -> TaskRegistry<F> {
        self.registry
    }

    /// The executor's configuration.
    pub closed spec fn config(&self) -> TaskExecutorConfig {
        self.config
    }

    /// The executor's registry.
    pub fn get_registry(&self) -> (r: &TaskRegistry<F>)
        ensures
            *r == self.registry(),
    {
        &self.registry
    }

    /// The executor's configuration.
    pub fn get_config(&self) -> (r: &TaskExecutorConfig)
        ensures
            *r == self.config(),
    {
        &self.config
    }

    /// The task to run for `task_kind`, or the failure reported when no
    /// task of that kind is registered (not retryable).
    pub fn lookup(&self, task_kind: &str) -> (r: Result<&RegisteredTask<F>, TaskExecutionResult>)
        ensures
            match r {
                Ok(t) => self.registry().kinds().contains(task_kind@) && t.metadata.kind@
                    == task_kind@ && self.registry().tasks().contains(*t),
                Err(TaskExecutionResult::Failed { error_message, error_type, is_retryable }) =>
                    !self.registry().kinds().contains(task_kind@) && error_message@
                    == "Task kind not found: "@ + task_kind@ && opt_view(error_type) == Some(
                    "TaskNotFound"@,
                ) && !is_retryable,
                Err(_) => false,
            },
    {
        match self.registry.get(task_kind) {
            Some(t) => Ok(t),
            None => Err(
                TaskExecutionResult::Failed {
                    error_message: String::from_str("Task kind not found: ").concat(task_kind),
                    error_type: Some(String::from_str("TaskNotFound")),
                    is_retryable: false,
                },
            ),
        }
    }

    /// The timeout, in seconds, that a task's metadata sets; without one
    /// the configured default applies.
    pub fn timeout_seconds_for(metadata: &TaskMetadata) -> (r: Option<u64>)
        ensures
            r == match metadata.timeout_seconds {
                Some(s) => Some(s as u64),
                None => None::<u64>,
            },
    {
        match metadata.timeout_seconds {
            Some(s) => Some(s as u64),
            None => None,
        }
    }

    /// The heartbeat interval, in seconds, that a task's metadata sets: half
    /// its heartbeat timeout; without one the configured default applies.
    pub fn heartbeat_seconds_for(metadata: &TaskMetadata) -> (r: Option<u64>)
        ensures
            r == match metadata.heartbeat_timeout_seconds {
                Some(s) => Some((s / 2) as u64),
                None => None::<u64>,
            },
    {
        match metadata.heartbeat_timeout_seconds {
            Some(s) => Some((s as u64) / 2),
            None => None,
        }
    }

    /// The error type under which `error` is reported, and whether it is
    /// worth retrying.
    pub fn classify_error(error: &FlovynError) -> (r: (Option<String>, bool))
        ensures
            (opt_view(r.0), r.1) == error_class(error@),
    {
        match error {
            FlovynError::TaskCancelled => (Some(String::from_str("CANCELLED")), false),
            FlovynError::NetworkError(_) => (Some(String::from_str("NETWORK")), true),
            FlovynError::Grpc(_) => (Some(String::from_str("GRPC")), true),
            FlovynError::Timeout(_) => (Some(String::from_str("TIMEOUT")), true),
            FlovynError::InvalidInput(_) => (Some(String::from_str("INVALID_INPUT")), false),
            FlovynError::InvalidConfiguration(_) => (
                Some(String::from_str("INVALID_CONFIG")),
                false,
            ),
            FlovynError::Serialization(_) => (Some(String::from_str("SERIALIZATION")), false),
            _ => (None, false),
        }
    }

    /// The outcome reported for a run of a task: `run` is what the task
    /// answered, or `None` when it did not answer within its timeout;
    /// `cancelled` tells whether the task was cancelled meanwhile.
    pub fn result_of(run: Option<Result<String, FlovynError>>, cancelled: bool) -> (r:
        TaskExecutionResult)
        ensures
            match run {
                None => r is TimedOut,
                Some(Ok(output)) => r == TaskExecutionResult::Completed { output },
                Some(Err(e)) => if cancelled {
                    r is Cancelled
                } else {
                    r matches TaskExecutionResult::Failed { error_message: m, error_type, is_retryable }
                        && m@ == error_message(e@) && (opt_view(error_type), is_retryable)
                        == error_class(e@)
                },
            },
    {
        match run {
            None => TaskExecutionResult::TimedOut,
            Some(Ok(output)) => TaskExecutionResult::Completed { output },
            Some(Err(e)) => {
                if cancelled {
                    return TaskExecutionResult::Cancelled;
                }
                let (error_type, is_retryable) = Self::classify_error(&e);
                TaskExecutionResult::Failed {
                    error_message: e.to_string(),
                    error_type,
                    is_retryable,
                }
            },
        }
    }

    /// Whether a failed attempt is retried: only a retryable failure, and
    /// only while attempts remain.
    pub fn should_retry(max_retries: u32, attempt: u32, is_retryable: bool) -> (r: bool)
        ensures
            r == (is_retryable && attempt < max_retries),
    {
        is_retryable && attempt < max_retries
    }
}

} // verus!
