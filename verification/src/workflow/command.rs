//! Commands a workflow execution records for the server.

use vstd::prelude::*;
use crate::common::text::copy_opt_string;

verus! {

/// A command recorded during workflow execution. Payloads are JSON texts.
#[derive(Debug)]
pub enum WorkflowCommand {
    /// Record the result of a side-effect operation.
    RecordOperation { sequence_number: i32, operation_name: String, result: String },
    /// Schedule a task.
    ScheduleTask {
        sequence_number: i32,
        task_type: String,
        task_execution_id: u128,
        input: String,
        priority_seconds: Option<i32>,
    },
    /// Set a workflow state key.
    SetState { sequence_number: i32, key: String, value: String },
    /// Clear a workflow state key.
    ClearState { sequence_number: i32, key: String },
    /// Start a durable timer.
    StartTimer { sequence_number: i32, timer_id: String, duration_ms: i64 },
    /// Create a durable promise.
    CreatePromise { sequence_number: i32, promise_id: String, timeout_ms: Option<i64> },
    /// Schedule a child workflow.
    ScheduleChildWorkflow {
        sequence_number: i32,
        name: String,
        kind: Option<String>,
        definition_id: Option<u128>,
        child_execution_id: u128,
        input: String,
        task_queue: String,
        priority_seconds: i32,
    },
    /// Resolve a durable promise with a value.
    ResolvePromise { sequence_number: i32, promise_id: String, value: String },
    /// Cancel a durable timer.
    CancelTimer { sequence_number: i32, timer_id: String },
    /// Complete the workflow with its output.
    CompleteWorkflow { sequence_number: i32, output: String },
    /// Fail the workflow.
    FailWorkflow {
        sequence_number: i32,
        error: String,
        stack_trace: String,
        failure_type: Option<String>,
    },
    /// Suspend the workflow until something it waits for happens.
    SuspendWorkflow { sequence_number: i32, reason: String },
    /// Cancel the workflow.
    CancelWorkflow { sequence_number: i32, reason: String },
}

/// A command as mathematical values.
pub enum CommandView {
    RecordOperation { sequence_number: i32, operation_name: Seq<char>, result: Seq<char> },
    ScheduleTask {
        sequence_number: i32,
        task_type: Seq<char>,
        task_execution_id: u128,
        input: Seq<char>,
        priority_seconds: Option<i32>,
    },
    SetState { sequence_number: i32, key: Seq<char>, value: Seq<char> },
    ClearState { sequence_number: i32, key: Seq<char> },
    StartTimer { sequence_number: i32, timer_id: Seq<char>, duration_ms: i64 },
    CreatePromise { sequence_number: i32, promise_id: Seq<char>, timeout_ms: Option<i64> },
    ScheduleChildWorkflow {
        sequence_number: i32,
        name: Seq<char>,
        kind: Option<Seq<char>>,
        definition_id: Option<u128>,
        child_execution_id: u128,
        input: Seq<char>,
        task_queue: Seq<char>,
        priority_seconds: i32,
    },
    ResolvePromise { sequence_number: i32, promise_id: Seq<char>, value: Seq<char> },
    CancelTimer { sequence_number: i32, timer_id: Seq<char> },
    CompleteWorkflow { sequence_number: i32, output: Seq<char> },
    FailWorkflow {
        sequence_number: i32,
        error: Seq<char>,
        stack_trace: Seq<char>,
        failure_type: Option<Seq<char>>,
    },
    SuspendWorkflow { sequence_number: i32, reason: Seq<char> },
    CancelWorkflow { sequence_number: i32, reason: Seq<char> },
}

impl View for WorkflowCommand {
    type V = CommandView;

    open spec fn view(&self) -> CommandView {
        match self {
            WorkflowCommand::RecordOperation { sequence_number, operation_name, result } =>
                CommandView::RecordOperation {
                sequence_number: *sequence_number,
                operation_name: operation_name@,
                result: result@,
            },
            WorkflowCommand::ScheduleTask {
                sequence_number,
                task_type,
                task_execution_id,
                input,
                priority_seconds,
            } => CommandView::ScheduleTask {
                sequence_number: *sequence_number,
                task_type: task_type@,
                task_execution_id: *task_execution_id,
                input: input@,
                priority_seconds: *priority_seconds,
            },
            WorkflowCommand::SetState { sequence_number, key, value } => CommandView::SetState {
                sequence_number: *sequence_number,
                key: key@,
                value: value@,
            },
            WorkflowCommand::ClearState { sequence_number, key } => CommandView::ClearState {
                sequence_number: *sequence_number,
                key: key@,
            },
            WorkflowCommand::StartTimer { sequence_number, timer_id, duration_ms } =>
                CommandView::StartTimer {
                sequence_number: *sequence_number,
                timer_id: timer_id@,
                duration_ms: *duration_ms,
            },
            WorkflowCommand::CreatePromise { sequence_number, promise_id, timeout_ms } =>
                CommandView::CreatePromise {
                sequence_number: *sequence_number,
                promise_id: promise_id@,
                timeout_ms: *timeout_ms,
            },
            WorkflowCommand::ScheduleChildWorkflow {
                sequence_number,
                name,
                kind,
                definition_id,
                child_execution_id,
                input,
                task_queue,
                priority_seconds,
            } => CommandView::ScheduleChildWorkflow {
                sequence_number: *sequence_number,
                name: name@,
                kind: match kind {
                    Some(k) => Some(k@),
                    None => None,
                },
                definition_id: *definition_id,
                child_execution_id: *child_execution_id,
                input: input@,
                task_queue: task_queue@,
                priority_seconds: *priority_seconds,
            },
            WorkflowCommand::ResolvePromise { sequence_number, promise_id, value } =>
                CommandView::ResolvePromise {
                sequence_number: *sequence_number,
                promise_id: promise_id@,
                value: value@,
            },
            WorkflowCommand::CancelTimer { sequence_number, timer_id } => CommandView::CancelTimer {
                sequence_number: *sequence_number,
                timer_id: timer_id@,
            },
            WorkflowCommand::CompleteWorkflow { sequence_number, output } =>
                CommandView::CompleteWorkflow { sequence_number: *sequence_number, output: output@ },
            WorkflowCommand::FailWorkflow { sequence_number, error, stack_trace, failure_type } =>
                CommandView::FailWorkflow {
                sequence_number: *sequence_number,
                error: error@,
                stack_trace: stack_trace@,
                failure_type: match failure_type {
                    Some(t) => Some(t@),
                    None => None,
                },
            },
            WorkflowCommand::SuspendWorkflow { sequence_number, reason } =>
                CommandView::SuspendWorkflow { sequence_number: *sequence_number, reason: reason@ },
            WorkflowCommand::CancelWorkflow { sequence_number, reason } =>
                CommandView::CancelWorkflow { sequence_number: *sequence_number, reason: reason@ },
        }
    }
}

/// The sequence number that a command carries.
pub open spec fn command_sequence(c: CommandView) -> i32 {
    match c {
        CommandView::RecordOperation { sequence_number, .. } => sequence_number,
        CommandView::ScheduleTask { sequence_number, .. } => sequence_number,
        CommandView::SetState { sequence_number, .. } => sequence_number,
        CommandView::ClearState { sequence_number, .. } => sequence_number,
        CommandView::StartTimer { sequence_number, .. } => sequence_number,
        CommandView::CreatePromise { sequence_number, .. } => sequence_number,
        CommandView::ScheduleChildWorkflow { sequence_number, .. } => sequence_number,
        CommandView::ResolvePromise { sequence_number, .. } => sequence_number,
        CommandView::CancelTimer { sequence_number, .. } => sequence_number,
        CommandView::CompleteWorkflow { sequence_number, .. } => sequence_number,
        CommandView::FailWorkflow { sequence_number, .. } => sequence_number,
        CommandView::SuspendWorkflow { sequence_number, .. } => sequence_number,
        CommandView::CancelWorkflow { sequence_number, .. } => sequence_number,
    }
}

impl WorkflowCommand {
    /// A copy of the command.
    pub fn copy(&self) -> (r: Self)
        ensures
            r@ == self@,
    {
        match self {
            WorkflowCommand::RecordOperation { sequence_number, operation_name, result } =>
                WorkflowCommand::RecordOperation {
                sequence_number: *sequence_number,
                operation_name: operation_name.clone(),
                result: result.clone(),
            },
            WorkflowCommand::ScheduleTask {
                sequence_number,
                task_type,
                task_execution_id,
                input,
                priority_seconds,
            } => WorkflowCommand::ScheduleTask {
                sequence_number: *sequence_number,
                task_type: task_type.clone(),
                task_execution_id: *task_execution_id,
                input: input.clone(),
                priority_seconds: *priority_seconds,
            },
            WorkflowCommand::SetState { sequence_number, key, value } => WorkflowCommand::SetState {
                sequence_number: *sequence_number,
                key: key.clone(),
                value: value.clone(),
            },
            WorkflowCommand::ClearState { sequence_number, key } => WorkflowCommand::ClearState {
                sequence_number: *sequence_number,
                key: key.clone(),
            },
            WorkflowCommand::StartTimer { sequence_number, timer_id, duration_ms } =>
                WorkflowCommand::StartTimer {
                sequence_number: *sequence_number,
                timer_id: timer_id.clone(),
                duration_ms: *duration_ms,
            },
            WorkflowCommand::CreatePromise { sequence_number, promise_id, timeout_ms } =>
                WorkflowCommand::CreatePromise {
                sequence_number: *sequence_number,
                promise_id: promise_id.clone(),
                timeout_ms: *timeout_ms,
            },
            WorkflowCommand::ScheduleChildWorkflow {
                sequence_number,
                name,
                kind,
                definition_id,
                child_execution_id,
                input,
                task_queue,
                priority_seconds,
            } => WorkflowCommand::ScheduleChildWorkflow {
                sequence_number: *sequence_number,
                name: name.clone(),
                kind: copy_opt_string(kind),
                definition_id: *definition_id,
                child_execution_id: *child_execution_id,
                input: input.clone(),
                task_queue: task_queue.clone(),
                priority_seconds: *priority_seconds,
            },
            WorkflowCommand::ResolvePromise { sequence_number, promise_id, value } =>
                WorkflowCommand::ResolvePromise {
                sequence_number: *sequence_number,
                promise_id: promise_id.clone(),
                value: value.clone(),
            },
            WorkflowCommand::CancelTimer { sequence_number, timer_id } =>
                WorkflowCommand::CancelTimer {
                sequence_number: *sequence_number,
                timer_id: timer_id.clone(),
            },
            WorkflowCommand::CompleteWorkflow { sequence_number, output } =>
                WorkflowCommand::CompleteWorkflow {
                sequence_number: *sequence_number,
                output: output.clone(),
            },
            WorkflowCommand::FailWorkflow { sequence_number, error, stack_trace, failure_type } =>
                WorkflowCommand::FailWorkflow {
                sequence_number: *sequence_number,
                error: error.clone(),
                stack_trace: stack_trace.clone(),
                failure_type: copy_opt_string(failure_type),
            },
            WorkflowCommand::SuspendWorkflow { sequence_number, reason } =>
                WorkflowCommand::SuspendWorkflow {
                sequence_number: *sequence_number,
                reason: reason.clone(),
            },
            WorkflowCommand::CancelWorkflow { sequence_number, reason } =>
                WorkflowCommand::CancelWorkflow {
                sequence_number: *sequence_number,
                reason: reason.clone(),
            },
        }
    }

    /// The command's sequence number.
    pub fn sequence_number(&self) -> (r: i32)
        ensures
            r == command_sequence(self@),
    {
        match self {
            WorkflowCommand::RecordOperation { sequence_number, .. } => *sequence_number,
            WorkflowCommand::ScheduleTask { sequence_number, .. } => *sequence_number,
            WorkflowCommand::SetState { sequence_number, .. } => *sequence_number,
            WorkflowCommand::ClearState { sequence_number, .. } => *sequence_number,
            WorkflowCommand::StartTimer { sequence_number, .. } => *sequence_number,
            WorkflowCommand::CreatePromise { sequence_number, .. } => *sequence_number,
            WorkflowCommand::ScheduleChildWorkflow { sequence_number, .. } => *sequence_number,
            WorkflowCommand::ResolvePromise { sequence_number, .. } => *sequence_number,
            WorkflowCommand::CancelTimer { sequence_number, .. } => *sequence_number,
            WorkflowCommand::CompleteWorkflow { sequence_number, .. } => *sequence_number,
            WorkflowCommand::FailWorkflow { sequence_number, .. } => *sequence_number,
            WorkflowCommand::SuspendWorkflow { sequence_number, .. } => *sequence_number,
            WorkflowCommand::CancelWorkflow { sequence_number, .. } => *sequence_number,
        }
    }
}

} // verus!
