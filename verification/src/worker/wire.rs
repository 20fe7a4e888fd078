//! Workflow commands in the form the server receives them: each carries its
//! sequence number, its type and its data; JSON payloads travel as the bytes
//! of their compact text, and IDs as UUID text.

use vstd::prelude::*;
use vstd::utf8::{decode_utf8, encode_utf8, encode_utf8_decode_utf8};
use crate::common::ids::{uuid_text, uuid_to_text};
use crate::common::json::{json_compact, spec_json_compact};
use crate::common::text::{copy_opt_string, opt_view};
use crate::workflow::command::{CommandView, WorkflowCommand, command_sequence};

verus! {

/// The type of a command sent to the server.
#[derive(PartialEq, Eq, Structural, Debug, Clone, Copy)]
pub enum WireCommandType {
    RecordOperation,
    ScheduleTask,
    SetState,
    ClearState,
    StartTimer,
    CreatePromise,
    ScheduleChildWorkflow,
    ResolvePromise,
    CancelTimer,
    CompleteWorkflow,
    FailWorkflow,
    SuspendWorkflow,
    CancelWorkflow,
}

/// The data of a command sent to the server.
#[derive(Debug)]
pub enum WireCommandData {
    RecordOperation { operation_name: String, result: Vec<u8> },
    ScheduleTask { task_type: String, input: Vec<u8>, task_execution_id: String },
    SetState { key: String, value: Vec<u8> },
    ClearState { key: String },
    StartTimer { timer_id: String, duration_ms: i64 },
    CreatePromise { promise_id: String, timeout_ms: Option<i64> },
    ScheduleChildWorkflow {
        child_execution_name: String,
        workflow_kind: Option<String>,
        workflow_definition_id: Option<String>,
        child_workflow_execution_id: String,
        input: Vec<u8>,
        task_queue: String,
        priority_seconds: i32,
    },
    ResolvePromise { promise_id: String, value: Vec<u8> },
    CancelTimer { timer_id: String },
    CompleteWorkflow { output: Vec<u8> },
    FailWorkflow { error: String, stack_trace: String, failure_type: String },
    SuspendWorkflow { reason: String },
    CancelWorkflow { reason: String },
}

/// A command sent to the server.
#[derive(Debug)]
pub struct WireCommand {
    pub sequence_number: i32,
    pub command_type: WireCommandType,
    pub command_data: WireCommandData,
}

/// The data of a command sent to the server, as mathematical values.
pub enum WireDataView {
    RecordOperation { operation_name: Seq<char>, result: Seq<u8> },
    ScheduleTask { task_type: Seq<char>, input: Seq<u8>, task_execution_id: Seq<char> },
    SetState { key: Seq<char>, value: Seq<u8> },
    ClearState { key: Seq<char> },
    StartTimer { timer_id: Seq<char>, duration_ms: i64 },
    CreatePromise { promise_id: Seq<char>, timeout_ms: Option<i64> },
    ScheduleChildWorkflow {
        child_execution_name: Seq<char>,
        workflow_kind: Option<Seq<char>>,
        workflow_definition_id: Option<Seq<char>>,
        child_workflow_execution_id: Seq<char>,
        input: Seq<u8>,
        task_queue: Seq<char>,
        priority_seconds: i32,
    },
    ResolvePromise { promise_id: Seq<char>, value: Seq<u8> },
    CancelTimer { timer_id: Seq<char> },
    CompleteWorkflow { output: Seq<u8> },
    FailWorkflow { error: Seq<char>, stack_trace: Seq<char>, failure_type: Seq<char> },
    SuspendWorkflow { reason: Seq<char> },
    CancelWorkflow { reason: Seq<char> },
}

/// A command sent to the server, as mathematical values.
pub struct WireCommandView {
    pub sequence_number: i32,
    pub command_type: WireCommandType,
    pub command_data: WireDataView,
}

impl View for WireCommand {
    type V = WireCommandView;

    open spec fn view(&self) -> WireCommandView {
        WireCommandView {
            sequence_number: self.sequence_number,
            command_type: self.command_type,
            command_data: match &self.command_data {
                WireCommandData::RecordOperation { operation_name, result } =>
                    WireDataView::RecordOperation { operation_name: operation_name@, result: result@ },
                WireCommandData::ScheduleTask { task_type, input, task_execution_id } =>
                    WireDataView::ScheduleTask {
                    task_type: task_type@,
                    input: input@,
                    task_execution_id: task_execution_id@,
                },
                WireCommandData::SetState { key, value } => WireDataView::SetState {
                    key: key@,
                    value: value@,
                },
                WireCommandData::ClearState { key } => WireDataView::ClearState { key: key@ },
                WireCommandData::StartTimer { timer_id, duration_ms } => WireDataView::StartTimer {
                    timer_id: timer_id@,
                    duration_ms: *duration_ms,
                },
                WireCommandData::CreatePromise { promise_id, timeout_ms } =>
                    WireDataView::CreatePromise { promise_id: promise_id@, timeout_ms: *timeout_ms },
                WireCommandData::ScheduleChildWorkflow {
                    child_execution_name,
                    workflow_kind,
                    workflow_definition_id,
                    child_workflow_execution_id,
                    input,
                    task_queue,
                    priority_seconds,
                } => WireDataView::ScheduleChildWorkflow {
                    child_execution_name: child_execution_name@,
                    workflow_kind: opt_view(*workflow_kind),
                    workflow_definition_id: opt_view(*workflow_definition_id),
                    child_workflow_execution_id: child_workflow_execution_id@,
                    input: input@,
                    task_queue: task_queue@,
                    priority_seconds: *priority_seconds,
                },
                WireCommandData::ResolvePromise { promise_id, value } =>
                    WireDataView::ResolvePromise { promise_id: promise_id@, value: value@ },
                WireCommandData::CancelTimer { timer_id } => WireDataView::CancelTimer {
                    timer_id: timer_id@,
                },
                WireCommandData::CompleteWorkflow { output } => WireDataView::CompleteWorkflow {
                    output: output@,
                },
                WireCommandData::FailWorkflow { error, stack_trace, failure_type } =>
                    WireDataView::FailWorkflow {
                    error: error@,
                    stack_trace: stack_trace@,
                    failure_type: failure_type@,
                },
                WireCommandData::SuspendWorkflow { reason } => WireDataView::SuspendWorkflow {
                    reason: reason@,
                },
                WireCommandData::CancelWorkflow { reason } => WireDataView::CancelWorkflow {
                    reason: reason@,
                },
            },
        }
    }
}

/// The bytes a JSON payload travels as: its compact text in UTF-8.
pub open spec fn payload_bytes(json: Seq<char>) -> Seq<u8> {
    encode_utf8(spec_json_compact(json))
}

/// The type of the server command that stands for `c`.
pub open spec fn wire_type(c: CommandView) -> WireCommandType {
    match c {
        CommandView::RecordOperation { .. } => WireCommandType::RecordOperation,
        CommandView::ScheduleTask { .. } => WireCommandType::ScheduleTask,
        CommandView::SetState { .. } => WireCommandType::SetState,
        CommandView::ClearState { .. } => WireCommandType::ClearState,
        CommandView::StartTimer { .. } => WireCommandType::StartTimer,
        CommandView::CreatePromise { .. } => WireCommandType::CreatePromise,
        CommandView::ScheduleChildWorkflow { .. } => WireCommandType::ScheduleChildWorkflow,
        CommandView::ResolvePromise { .. } => WireCommandType::ResolvePromise,
        CommandView::CancelTimer { .. } => WireCommandType::CancelTimer,
        CommandView::CompleteWorkflow { .. } => WireCommandType::CompleteWorkflow,
        CommandView::FailWorkflow { .. } => WireCommandType::FailWorkflow,
        CommandView::SuspendWorkflow { .. } => WireCommandType::SuspendWorkflow,
        CommandView::CancelWorkflow { .. } => WireCommandType::CancelWorkflow,
    }
}

/// The data of the server command that stands for `c`: names and texts are
/// kept, JSON payloads become their bytes, IDs their UUID text, a missing
/// failure type the empty text; the priority of a task is not sent.
pub open spec fn wire_data(c: CommandView) -> WireDataView {
    match c {
        CommandView::RecordOperation { operation_name, result, .. } =>
            WireDataView::RecordOperation { operation_name, result: payload_bytes(result) },
        CommandView::ScheduleTask { task_type, task_execution_id, input, .. } =>
            WireDataView::ScheduleTask {
            task_type,
            input: payload_bytes(input),
            task_execution_id: uuid_text(task_execution_id),
        },
        CommandView::SetState { key, value, .. } => WireDataView::SetState {
            key,
            value: payload_bytes(value),
        },
        CommandView::ClearState { key, .. } => WireDataView::ClearState { key },
        CommandView::StartTimer { timer_id, duration_ms, .. } => WireDataView::StartTimer {
            timer_id,
            duration_ms,
        },
        CommandView::CreatePromise { promise_id, timeout_ms, .. } => WireDataView::CreatePromise {
            promise_id,
            timeout_ms,
        },
        CommandView::ScheduleChildWorkflow {
            name,
            kind,
            definition_id,
            child_execution_id,
            input,
            task_queue,
            priority_seconds,
            ..
        } => WireDataView::ScheduleChildWorkflow {
            child_execution_name: name,
            workflow_kind: kind,
            workflow_definition_id: match definition_id {
                Some(id) => Some(uuid_text(id)),
                None => None,
            },
            child_workflow_execution_id: uuid_text(child_execution_id),
            input: payload_bytes(input),
            task_queue,
            priority_seconds,
        },
        CommandView::ResolvePromise { promise_id, value, .. } => WireDataView::ResolvePromise {
            promise_id,
            value: payload_bytes(value),
        },
        CommandView::CancelTimer { timer_id, .. } => WireDataView::CancelTimer { timer_id },
        CommandView::CompleteWorkflow { output, .. } => WireDataView::CompleteWorkflow {
            output: payload_bytes(output),
        },
        CommandView::FailWorkflow { error, stack_trace, failure_type, .. } =>
            WireDataView::FailWorkflow {
            error,
            stack_trace,
            failure_type: match failure_type {
                Some(t) => t,
                None => Seq::empty(),
            },
        },
        CommandView::SuspendWorkflow { reason, .. } => WireDataView::SuspendWorkflow { reason },
        CommandView::CancelWorkflow { reason, .. } => WireDataView::CancelWorkflow { reason },
    }
}

/// The server command that stands for `c`.
pub open spec fn wire_of(c: CommandView) -> WireCommandView {
    WireCommandView {
        sequence_number: command_sequence(c),
        command_type: wire_type(c),
        command_data: wire_data(c),
    }
}

/// The bytes of the JSON payload `json`.
fn payload(json: &String) -> (r: Vec<u8>)
    ensures
        r@ == payload_bytes(json@),
{
    json_compact(json.as_str()).as_str().as_bytes_vec()
}

fn copy_text(s: &String) -> (r: String)
    ensures
        r@ == s@,
{
    s.clone()
}

/// The server command that stands for `command`.
pub fn command_to_wire(command: &WorkflowCommand) -> (r: WireCommand)
    ensures
        r@ == wire_of(command@),
{
    let sequence_number = command.sequence_number();
    let (command_type, command_data) = match command {
        WorkflowCommand::RecordOperation { operation_name, result, .. } => (
            WireCommandType::RecordOperation,
            WireCommandData::RecordOperation {
                operation_name: copy_text(operation_name),
                result: payload(result),
            },
        ),
        WorkflowCommand::ScheduleTask { task_type, task_execution_id, input, .. } => (
            WireCommandType::ScheduleTask,
            WireCommandData::ScheduleTask {
                task_type: copy_text(task_type),
                input: payload(input),
                task_execution_id: uuid_to_text(*task_execution_id),
            },
        ),
        WorkflowCommand::SetState { key, value, .. } => (
            WireCommandType::SetState,
            WireCommandData::SetState { key: copy_text(key), value: payload(value) },
        ),
        WorkflowCommand::ClearState { key, .. } => (
            WireCommandType::ClearState,
            WireCommandData::ClearState { key: copy_text(key) },
        ),
        WorkflowCommand::StartTimer { timer_id, duration_ms, .. } => (
            WireCommandType::StartTimer,
            WireCommandData::StartTimer { timer_id: copy_text(timer_id), duration_ms: *duration_ms },
        ),
        WorkflowCommand::CreatePromise { promise_id, timeout_ms, .. } => (
            WireCommandType::CreatePromise,
            WireCommandData::CreatePromise {
                promise_id: copy_text(promise_id),
                timeout_ms: *timeout_ms,
            },
        ),
        WorkflowCommand::ScheduleChildWorkflow {
            name,
            kind,
            definition_id,
            child_execution_id,
            input,
            task_queue,
            priority_seconds,
            ..
        } => (
            WireCommandType::ScheduleChildWorkflow,
            WireCommandData::ScheduleChildWorkflow {
                child_execution_name: copy_text(name),
                workflow_kind: copy_opt_string(kind),
                workflow_definition_id: match definition_id {
                    Some(id) => Some(uuid_to_text(*id)),
                    None => None,
                },
                child_workflow_execution_id: uuid_to_text(*child_execution_id),
                input: payload(input),
                task_queue: copy_text(task_queue),
                priority_seconds: *priority_seconds,
            },
        ),
        WorkflowCommand::ResolvePromise { promise_id, value, .. } => (
            WireCommandType::ResolvePromise,
            WireCommandData::ResolvePromise { promise_id: copy_text(promise_id), value: payload(value) },
        ),
        WorkflowCommand::CancelTimer { timer_id, .. } => (
            WireCommandType::CancelTimer,
            WireCommandData::CancelTimer { timer_id: copy_text(timer_id) },
        ),
        WorkflowCommand::CompleteWorkflow { output, .. } => (
            WireCommandType::CompleteWorkflow,
            WireCommandData::CompleteWorkflow { output: payload(output) },
        ),
        WorkflowCommand::FailWorkflow { error, stack_trace, failure_type, .. } => (
            WireCommandType::FailWorkflow,
            WireCommandData::FailWorkflow {
                error: copy_text(error),
                stack_trace: copy_text(stack_trace),
                failure_type: match failure_type {
                    Some(t) => t.clone(),
                    None => String::new(),
                },
            },
        ),
        WorkflowCommand::SuspendWorkflow { reason, .. } => (
            WireCommandType::SuspendWorkflow,
            WireCommandData::SuspendWorkflow { reason: copy_text(reason) },
        ),
        WorkflowCommand::CancelWorkflow { reason, .. } => (
            WireCommandType::CancelWorkflow,
            WireCommandData::CancelWorkflow { reason: copy_text(reason) },
        ),
    };
    WireCommand { sequence_number, command_type, command_data }
}

/// The JSON payload a command carries, if it carries one: an operation's
/// result, a state value, a task's or a child workflow's input, a promise's
/// value, or the workflow's output.
pub open spec fn command_payload(c: CommandView) -> Option<Seq<char>> {
    match c {
        CommandView::RecordOperation { result, .. } => Some(result),
        CommandView::SetState { value, .. } => Some(value),
        CommandView::ScheduleTask { input, .. } => Some(input),
        CommandView::ScheduleChildWorkflow { input, .. } => Some(input),
        CommandView::ResolvePromise { value, .. } => Some(value),
        CommandView::CompleteWorkflow { output, .. } => Some(output),
        _ => None,
    }
}

/// The JSON payload bytes a wire command carries, if it carries any.
pub open spec fn wire_payload(d: WireDataView) -> Option<Seq<u8>> {
    match d {
        WireDataView::RecordOperation { result, .. } => Some(result),
        WireDataView::SetState { value, .. } => Some(value),
        WireDataView::ScheduleTask { input, .. } => Some(input),
        WireDataView::ScheduleChildWorkflow { input, .. } => Some(input),
        WireDataView::ResolvePromise { value, .. } => Some(value),
        WireDataView::CompleteWorkflow { output, .. } => Some(output),
        _ => None,
    }
}

/// Sending a command loses nothing the server needs: the wire command keeps
/// the command's sequence number; it carries a JSON payload exactly when the
/// command does, and that payload travels as the UTF-8 bytes of the
/// payload's compact JSON text: the bytes decode back to exactly that text,
/// so they are empty only if the text is.
pub proof fn law_wire_keeps_payloads(c: CommandView)
    ensures
        wire_of(c).sequence_number == command_sequence(c),
        (command_payload(c) is Some) <==> (wire_payload(wire_of(c).command_data) is Some),
        command_payload(c) matches Some(p) ==> wire_payload(wire_of(c).command_data) == Some(
            encode_utf8(spec_json_compact(p)),
        ),
        command_payload(c) matches Some(p) ==> wire_payload(wire_of(c).command_data) matches Some(
            b,
        ) && decode_utf8(b) == spec_json_compact(p) && (spec_json_compact(p).len() > 0 ==> b.len()
            > 0),
{
    match command_payload(c) {
        Some(p) => {
            let t = spec_json_compact(p);
            encode_utf8_decode_utf8(t);
            if encode_utf8(t).len() == 0 {
                assert(encode_utf8(t) =~= Seq::<u8>::empty());
                assert(decode_utf8(Seq::<u8>::empty()) =~= Seq::<char>::empty());
            }
        },
        None => {},
    }
}

} // verus!
