//! One workflow task on a worker: the history the server sends is read into
//! replay events, the registered workflow runs against it, and its outcome
//! becomes the commands and status the worker reports.

use crate::error::{FlovynError, FlovynErrorView, error_message};
use crate::workflow::command::{CommandView, WorkflowCommand};
use crate::workflow::event::{
    EventField,
    EventFieldView,
    EventType,
    ReplayEvent,
    event_type_from_name,
    json_object_fields,
    parse_event_type,
    spec_json_object_fields,
};
use crate::worker::registry::{RegisteredWorkflow, WorkflowRegistry};
use vstd::prelude::*;

verus! {

/// The status a worker reports for a workflow after a task.
#[derive(Debug, Clone, Copy, PartialEq, Eq, Structural)]
pub enum WorkflowStatus {
    Running,
    Suspended,
    Completed,
    Failed,
    Cancelled,
}

/// The fields of an event whose payload is the JSON text `payload`: its
/// entries when it is an object, none otherwise.
pub open spec fn payload_fields(payload: Seq<char>) -> Seq<EventFieldView> {
    match spec_json_object_fields(payload) {
        Some(fields) => fields,
        None => Seq::empty(),
    }
}

/// The replay event for an event of the server's history: its sequence
/// number, its type read from its wire name, and the fields of its payload.
pub fn replay_event_from_history(sequence_number: i32, event_type: &str, payload: &str) -> (r:
    ReplayEvent)
    ensures
        r.sequence_number == sequence_number,
        r.event_type == event_type_from_name(event_type@),
        r@.fields == payload_fields(payload@),
{
    let fields = match json_object_fields(payload) {
        Some(f) => f,
        None => Vec::new(),
    };
    assert(fields@.map_values(|f: EventField| f@) =~= payload_fields(payload@));
    ReplayEvent::new(sequence_number, parse_event_type(event_type), fields)
}

/// The workflow registered under `kind`, or `Other("Workflow kind not
/// registered: ..")`.
pub fn workflow_for_kind<'a, F>(registry: &'a WorkflowRegistry<F>, kind: &str) -> (r: Result<
    &'a RegisteredWorkflow<F>,
    FlovynError,
>)
    ensures
        match r {
            Ok(w) => registry.kinds().contains(kind@) && w.metadata.kind@ == kind@,
            Err(e) => !registry.kinds().contains(kind@) && e@ == FlovynErrorView::Other(
                "Workflow kind not registered: "@ + kind@,
            ),
        },
{
    match registry.get(kind) {
        Some(w) => Ok(w),
        None => Err(
            FlovynError::Other(String::from_str("Workflow kind not registered: ").concat(kind)),
        ),
    }
}

/// The command that ends a workflow task whose run gave `result`, numbered
/// `sequence_number`, and the status it reports: completion with the
/// output; suspension with its reason; otherwise failure with the error's
/// message and failure type `ERROR`.
pub open spec fn closing(result: Result<Seq<char>, FlovynErrorView>, sequence_number: i32) -> (
    WorkflowStatus,
    CommandView,
) {
    match result {
        Ok(output) => (
            WorkflowStatus::Completed,
            CommandView::CompleteWorkflow { sequence_number, output },
        ),
        Err(FlovynErrorView::Suspended { reason }) => (
            WorkflowStatus::Suspended,
            CommandView::SuspendWorkflow { sequence_number, reason },
        ),
        Err(e) => (
            WorkflowStatus::Failed,
            CommandView::FailWorkflow {
                sequence_number,
                error: error_message(e),
                stack_trace: Seq::empty(),
                failure_type: Some("ERROR"@),
            },
        ),
    }
}

/// A run's result as mathematical values.
pub open spec fn run_view(r: Result<String, FlovynError>) -> Result<Seq<char>, FlovynErrorView> {
    match r {
        Ok(v) => Ok(v@),
        Err(e) => Err(e@),
    }
}

/// The status to report and the commands to submit once a workflow, replayed
/// over `history_len` events, ran with `result` and recorded `commands`: the
/// recorded commands and then the closing command, numbered one past the
/// history.
pub fn finish_workflow_task(
    commands: Vec<WorkflowCommand>,
    history_len: usize,
    result: Result<String, FlovynError>,
) -> (r: (WorkflowStatus, Vec<WorkflowCommand>))
    requires
        history_len < i32::MAX,
    ensures
        r.0 == closing(run_view(result), (history_len + 1) as i32).0,
        r.1@.map_values(|c: WorkflowCommand| c@) == commands@.map_values(|c: WorkflowCommand| c@).push(
            closing(run_view(result), (history_len + 1) as i32).1,
        ),
{
    let sequence_number = (history_len as i32) + 1;
    let ghost before = commands@.map_values(|c: WorkflowCommand| c@);
    let mut commands = commands;
    let status = match result {
        Ok(output) => {
            commands.push(WorkflowCommand::CompleteWorkflow { sequence_number, output });
            WorkflowStatus::Completed
        },
        Err(FlovynError::Suspended { reason }) => {
            commands.push(WorkflowCommand::SuspendWorkflow { sequence_number, reason });
            WorkflowStatus::Suspended
        },
        Err(e) => {
            commands.push(
                WorkflowCommand::FailWorkflow {
                    sequence_number,
                    error: e.to_string(),
                    stack_trace: String::new(),
                    failure_type: Some(String::from_str("ERROR")),
                },
            );
            WorkflowStatus::Failed
        },
    };
    assert(commands@.map_values(|c: WorkflowCommand| c@) =~= before.push(
        closing(run_view(result), (history_len + 1) as i32).1,
    ));
    (status, commands)
}

/// How a workflow task closes follows from how the run ended, and the
/// closing command always carries the number it is given: a run that gave a
/// value completes the workflow with that value as its output; only a
/// suspension suspends it, with the suspension's reason; every other error
/// fails it, with the error's message as the failure and `ERROR` as its type.
pub proof fn law_closing_follows_the_run(result: Result<Seq<char>, FlovynErrorView>, n: i32)
    ensures
        ({
            let (status, command) = closing(result, n);
            &&& (status == WorkflowStatus::Completed) <==> result is Ok
            &&& (status == WorkflowStatus::Suspended) <==> (result matches Err(
                FlovynErrorView::Suspended { .. },
            ))
            &&& (status == WorkflowStatus::Failed) <==> (result matches Err(e) && !(
            e is Suspended))
            &&& result is Ok ==> command == CommandView::CompleteWorkflow {
                sequence_number: n,
                output: result->Ok_0,
            }
            &&& (result matches Err(FlovynErrorView::Suspended { reason })) ==> command
                == CommandView::SuspendWorkflow {
                sequence_number: n,
                reason: result->Err_0->Suspended_reason,
            }
            &&& (result matches Err(e) && !(e is Suspended)) ==> command
                == CommandView::FailWorkflow {
                sequence_number: n,
                error: error_message(result->Err_0),
                stack_trace: Seq::empty(),
                failure_type: Some("ERROR"@),
            }
        }),
{
}

} // verus!
