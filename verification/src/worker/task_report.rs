//! What a task worker tells the server and its telemetry once a task it
//! polled has run.

use crate::common::ids::{uuid_text, uuid_to_text};
use crate::common::kv::kv_insert;
use crate::common::text::{opt_view, u64_to_decimal, decimal};
use crate::task::executor::TaskExecutionResult;
use crate::telemetry::{ExecutionSpan, RecordingSpan, SpanView, finished_from, task_execute_span};
use vstd::prelude::*;

verus! {

/// What to report to the server about a task that ran.
#[derive(Debug, PartialEq, Eq)]
pub enum TaskReport {
    /// Complete the task with this output (JSON text).
    Complete(String),
    /// Fail the task with this message.
    Fail(String),
}

/// The report for `result`: completion with the output; failure with the
/// error's message, or with a fixed message for cancellation and timeout.
pub open spec fn report_for(result: TaskExecutionResult) -> (bool, Seq<char>) {
    match result {
        TaskExecutionResult::Completed { output } => (true, output@),
        TaskExecutionResult::Failed { error_message, .. } => (false, error_message@),
        TaskExecutionResult::Cancelled => (false, "Task cancelled"@),
        TaskExecutionResult::TimedOut => (false, "Task execution timed out"@),
    }
}

/// Whether `r` reports `(completed, text)`.
pub open spec fn reports(r: TaskReport, expected: (bool, Seq<char>)) -> bool {
    match r {
        TaskReport::Complete(s) => expected.0 && s@ == expected.1,
        TaskReport::Fail(s) => !expected.0 && s@ == expected.1,
    }
}

/// A task is reported as completed exactly when it completed, and then
/// with its own output; a failed task is reported with its own error
/// message, and a cancelled or timed-out one with a message that says so.
pub proof fn law_report_follows_the_outcome(result: TaskExecutionResult)
    ensures
        report_for(result).0 <==> result is Completed,
        result matches TaskExecutionResult::Completed { output } ==> report_for(result).1
            == output@,
        result matches TaskExecutionResult::Failed { error_message, .. } ==> report_for(result).1
            == error_message@,
        result is Cancelled ==> report_for(result).1 == "Task cancelled"@,
        result is TimedOut ==> report_for(result).1 == "Task execution timed out"@,
{
}

/// The report to send for `result`.
pub fn task_report(result: TaskExecutionResult) -> (r: TaskReport)
    ensures
        reports(r, report_for(result)),
{
    match result {
        TaskExecutionResult::Completed { output } => TaskReport::Complete(output),
        TaskExecutionResult::Failed { error_message, .. } => TaskReport::Fail(error_message),
        TaskExecutionResult::Cancelled => TaskReport::Fail(String::from_str("Task cancelled")),
        TaskExecutionResult::TimedOut => TaskReport::Fail(
            String::from_str("Task execution timed out"),
        ),
    }
}

/// Whether the task counts as done well: only completion does.
pub fn task_succeeded(result: &TaskExecutionResult) -> (r: bool)
    ensures
        r == (result is Completed),
{
    match result {
        TaskExecutionResult::Completed { .. } => true,
        _ => false,
    }
}

/// The workflow ID a task's span carries: the workflow's, or `standalone`
/// for a task that no workflow scheduled.
pub open spec fn span_workflow_id(workflow_execution_id: Option<u128>) -> Seq<char> {
    match workflow_execution_id {
        Some(id) => uuid_text(id),
        None => "standalone"@,
    }
}

/// The span of running a task: its workflow (see [`span_workflow_id`]),
/// its execution ID, its type, and the attempt.
pub fn task_span(
    workflow_execution_id: Option<u128>,
    task_execution_id: u128,
    task_type: &str,
    attempt: u32,
) -> (r: RecordingSpan)
    ensures
        r.wf(),
        r@.span_type == "task.execute"@,
        r@.workflow_id == span_workflow_id(workflow_execution_id),
        r@.parent_span_id is None,
        r@.task_id == Some(uuid_text(task_execution_id)),
        r@.attributes == kv_insert(
            seq![("task.type"@, task_type@)],
            "attempt"@,
            decimal(attempt as nat),
        ),
{
    let workflow_id = match workflow_execution_id {
        Some(id) => uuid_to_text(id),
        None => String::from_str("standalone"),
    };
    let task_id = uuid_to_text(task_execution_id);
    let attempt_text = u64_to_decimal(attempt as u64);
    task_execute_span(workflow_id.as_str(), task_id.as_str(), task_type).with_attribute(
        "attempt",
        attempt_text.as_str(),
    )
}

/// The finished span of a task that ran with `result`: plain for
/// completion; for the others an error named `TaskFailed` with the error's
/// message, `TaskCancelled` or `TaskTimeout`.
pub fn finish_task_span(span: RecordingSpan, result: &TaskExecutionResult) -> (r: ExecutionSpan)
    requires
        span.wf(),
    ensures
        finished_from(r, span@),
        r.is_error == !(result is Completed),
        match result {
            TaskExecutionResult::Completed { .. } => r.error_type is None && r.error_message is None,
            TaskExecutionResult::Failed { error_message, .. } => opt_view(r.error_type) == Some(
                "TaskFailed"@,
            ) && opt_view(r.error_message) == Some(error_message@),
            TaskExecutionResult::Cancelled => opt_view(r.error_type) == Some("TaskCancelled"@)
                && opt_view(r.error_message) == Some("Task was cancelled"@),
            TaskExecutionResult::TimedOut => opt_view(r.error_type) == Some("TaskTimeout"@)
                && opt_view(r.error_message) == Some("Task execution timed out"@),
        },
{
    match result {
        TaskExecutionResult::Completed { .. } => span.finish(),
        TaskExecutionResult::Failed { error_message, .. } => span.finish_with_error(
            "TaskFailed",
            error_message.as_str(),
        ),
        TaskExecutionResult::Cancelled => span.finish_with_error("TaskCancelled", "Task was cancelled"),
        TaskExecutionResult::TimedOut => span.finish_with_error(
            "TaskTimeout",
            "Task execution timed out",
        ),
    }
}

} // verus!
