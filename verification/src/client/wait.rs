//! What a client reads from a workflow's history: whether the workflow has
//! finished (the first terminal event gives the outcome), and the ID of a
//! durable promise it created.

use crate::common::ids::{uuid_text, uuid_to_text};
use crate::common::text::{opt_view, str_eq};
use crate::error::{FlovynError, FlovynErrorView};
use crate::workflow::event::{json_member, json_member_field};
use vstd::prelude::*;

verus! {

/// An event of a workflow's history as the server lists it: its type's
/// wire name and its payload (JSON text).
pub struct HistoryEvent {
    pub event_type: String,
    pub payload: String,
}

/// A history event as mathematical values.
pub open spec fn history_event_view(e: HistoryEvent) -> (Seq<char>, Seq<char>) {
    (e.event_type@, e.payload@)
}

/// The JSON text of member `key` of `payload`, if any.
pub open spec fn member_json(payload: Seq<char>, key: Seq<char>) -> Option<Seq<char>> {
    match json_member_field(payload, key) {
        Some(f) => Some(f.json),
        None => None,
    }
}

/// The string member `key` of `payload`, if it has one that is a string.
pub open spec fn member_str(payload: Seq<char>, key: Seq<char>) -> Option<Seq<char>> {
    match json_member_field(payload, key) {
        Some(f) => f.text,
        None => None,
    }
}

/// The outcome that one event gives, if it is terminal: completion gives
/// the `output` member (`null` when absent); failure the `error` member
/// (`Unknown error` when absent or not a string); cancellation the `reason`
/// member (`Cancelled` likewise).
pub open spec fn event_outcome(event_type: Seq<char>, payload: Seq<char>) -> Option<
    Result<Seq<char>, FlovynErrorView>,
> {
    if event_type == "WORKFLOW_COMPLETED"@ {
        Some(
            Ok(
                match member_json(payload, "output"@) {
                    Some(o) => o,
                    None => "null"@,
                },
            ),
        )
    } else if event_type == "WORKFLOW_FAILED"@ {
        Some(
            Err(
                FlovynErrorView::WorkflowFailed(
                    match member_str(payload, "error"@) {
                        Some(e) => e,
                        None => "Unknown error"@,
                    },
                ),
            ),
        )
    } else if event_type == "WORKFLOW_CANCELLED"@ {
        Some(
            Err(
                FlovynErrorView::WorkflowCancelled(
                    match member_str(payload, "reason"@) {
                        Some(r) => r,
                        None => "Cancelled"@,
                    },
                ),
            ),
        )
    } else {
        None
    }
}

/// The outcome of the first terminal event of `events`, if any.
pub open spec fn history_outcome(events: Seq<(Seq<char>, Seq<char>)>) -> Option<
    Result<Seq<char>, FlovynErrorView>,
>
    decreases events.len(),
{
    if events.len() == 0 {
        None
    } else {
        match event_outcome(events[0].0, events[0].1) {
            Some(o) => Some(o),
            None => history_outcome(events.drop_first()),
        }
    }
}

/// An outcome as mathematical values.
pub open spec fn outcome_view(r: Option<Result<String, FlovynError>>) -> Option<
    Result<Seq<char>, FlovynErrorView>,
> {
    match r {
        Some(Ok(v)) => Some(Ok(v@)),
        Some(Err(e)) => Some(Err(e@)),
        None => None,
    }
}

fn member_json_of(payload: &str, key: &str) -> (r: Option<String>)
    ensures
        opt_view(r) == member_json(payload@, key@),
{
    match json_member(payload, key) {
        Some(f) => Some(f.json),
        None => None,
    }
}

fn member_str_of(payload: &str, key: &str) -> (r: Option<String>)
    ensures
        opt_view(r) == member_str(payload@, key@),
{
    match json_member(payload, key) {
        Some(f) => f.text,
        None => None,
    }
}

fn outcome_of_event(e: &HistoryEvent) -> (r: Option<Result<String, FlovynError>>)
    ensures
        outcome_view(r) == event_outcome(e.event_type@, e.payload@),
{
    if str_eq(e.event_type.as_str(), "WORKFLOW_COMPLETED") {
        match member_json_of(e.payload.as_str(), "output") {
            Some(o) => Some(Ok(o)),
            None => Some(Ok(String::from_str("null"))),
        }
    } else if str_eq(e.event_type.as_str(), "WORKFLOW_FAILED") {
        match member_str_of(e.payload.as_str(), "error") {
            Some(m) => Some(Err(FlovynError::WorkflowFailed(m))),
            None => Some(Err(FlovynError::WorkflowFailed(String::from_str("Unknown error")))),
        }
    } else if str_eq(e.event_type.as_str(), "WORKFLOW_CANCELLED") {
        match member_str_of(e.payload.as_str(), "reason") {
            Some(m) => Some(Err(FlovynError::WorkflowCancelled(m))),
            None => Some(Err(FlovynError::WorkflowCancelled(String::from_str("Cancelled")))),
        }
    } else {
        None
    }
}

/// The outcome of the workflow whose history is `events`: that of its
/// first terminal event, or none while it has not finished.
pub fn completion_outcome(events: &Vec<HistoryEvent>) -> (r: Option<Result<String, FlovynError>>)
    ensures
        outcome_view(r) == history_outcome(events@.map_values(|e: HistoryEvent| history_event_view(e))),
{
    let ghost all = events@.map_values(|e: HistoryEvent| history_event_view(e));
    let mut i: usize = 0;
    assert(all.skip(0) =~= all);
    while i < events.len()
        invariant
            i <= events@.len(),
            all == events@.map_values(|e: HistoryEvent| history_event_view(e)),
            history_outcome(all) == history_outcome(all.skip(i as int)),
        decreases events@.len() - i,
    {
        let ghost rest = all.skip(i as int);
        assert(rest[0] == history_event_view(events@[i as int]));
        assert(rest.drop_first() =~= all.skip(i + 1));
        let o = outcome_of_event(&events[i]);
        if o.is_some() {
            return o;
        }
        i = i + 1;
    }
    None
}

/// The error of a wait that ran out of time: `Timeout("Workflow <id> did not
/// complete within <timeout>")`, where `timeout` is how the wait's limit is
/// written.
pub fn wait_timeout_error(workflow_execution_id: u128, timeout: &str) -> (r: FlovynError)
    ensures
        r@ == FlovynErrorView::Timeout(
            "Workflow "@ + uuid_text(workflow_execution_id) + " did not complete within "@ + timeout@,
        ),
{
    FlovynError::Timeout(
        String::from_str("Workflow ").concat(uuid_to_text(workflow_execution_id).as_str()).concat(
            " did not complete within ",
        ).concat(timeout),
    )
}

/// The ID of the promise `name` that `events` record: the `promiseId` of the
/// first promise-created event whose `promiseName` is `name` and that has a
/// string `promiseId`.
pub open spec fn promise_id_in(events: Seq<(Seq<char>, Seq<char>)>, name: Seq<char>) -> Option<
    Seq<char>,
>
    decreases events.len(),
{
    if events.len() == 0 {
        None
    } else if events[0].0 == "PROMISE_CREATED"@ && member_str(events[0].1, "promiseName"@) == Some(
        name,
    ) && member_str(events[0].1, "promiseId"@) is Some {
        member_str(events[0].1, "promiseId"@)
    } else {
        promise_id_in(events.drop_first(), name)
    }
}

/// The ID of the promise `promise_name` in the workflow history `events`.
pub fn find_promise_id(events: &Vec<HistoryEvent>, promise_name: &str) -> (r: Option<String>)
    ensures
        opt_view(r) == promise_id_in(
            events@.map_values(|e: HistoryEvent| history_event_view(e)),
            promise_name@,
        ),
{
    let ghost all = events@.map_values(|e: HistoryEvent| history_event_view(e));
    let mut i: usize = 0;
    assert(all.skip(0) =~= all);
    while i < events.len()
        invariant
            i <= events@.len(),
            all == events@.map_values(|e: HistoryEvent| history_event_view(e)),
            promise_id_in(all, promise_name@) == promise_id_in(all.skip(i as int), promise_name@),
        decreases events@.len() - i,
    {
        let ghost rest = all.skip(i as int);
        assert(rest[0] == history_event_view(events@[i as int]));
        assert(rest.drop_first() =~= all.skip(i + 1));
        let e = &events[i];
        if str_eq(e.event_type.as_str(), "PROMISE_CREATED") {
            match member_str_of(e.payload.as_str(), "promiseName") {
                Some(n) => {
                    if str_eq(n.as_str(), promise_name) {
                        let id = member_str_of(e.payload.as_str(), "promiseId");
                        if id.is_some() {
                            return id;
                        }
                    }
                },
                None => {},
            }
        }
        i = i + 1;
    }
    None
}

/// The error of a promise that the history of workflow
/// `workflow_execution_id` does not hold.
pub open spec fn promise_not_found(promise_name: Seq<char>, workflow_execution_id: u128) -> FlovynErrorView {
    FlovynErrorView::PromiseNotFound(
        "Promise '"@ + promise_name + "' not found in workflow "@ + uuid_text(workflow_execution_id),
    )
}

/// The ID of the promise `promise_name` in `events`, the history of the
/// workflow `workflow_execution_id`, or the error that it is not there.
pub fn promise_id_from_history(
    events: &Vec<HistoryEvent>,
    workflow_execution_id: u128,
    promise_name: &str,
) -> (r: Result<String, FlovynError>)
    ensures
        match promise_id_in(events@.map_values(|e: HistoryEvent| history_event_view(e)), promise_name@) {
            Some(id) => r matches Ok(s) && s@ == id,
            None => r matches Err(e) && e@ == promise_not_found(promise_name@, workflow_execution_id),
        },
{
    match find_promise_id(events, promise_name) {
        Some(id) => Ok(id),
        None => Err(
            FlovynError::PromiseNotFound(
                String::from_str("Promise '").concat(promise_name).concat("' not found in workflow ").concat(
                    uuid_to_text(workflow_execution_id).as_str(),
                ),
            ),
        ),
    }
}

/// Whether a history event's type ends the workflow.
pub open spec fn ends_workflow(event_type: Seq<char>) -> bool {
    ||| event_type == "WORKFLOW_COMPLETED"@
    ||| event_type == "WORKFLOW_FAILED"@
    ||| event_type == "WORKFLOW_CANCELLED"@
}

/// A workflow's outcome is decided by the first event of its history that
/// ends it, at `i`: completion gives a value, failure a `WorkflowFailed`
/// error and cancellation a `WorkflowCancelled` error with the recorded
/// reason (`Cancelled` when none is recorded), whatever comes after.
pub proof fn law_first_ending_event_decides(events: Seq<(Seq<char>, Seq<char>)>, i: int)
    requires
        0 <= i < events.len(),
        ends_workflow(events[i].0),
        forall|j: int| 0 <= j < i ==> !ends_workflow(#[trigger] events[j].0),
    ensures
        events[i].0 == "WORKFLOW_COMPLETED"@ ==> history_outcome(events) matches Some(Ok(_)),
        events[i].0 == "WORKFLOW_FAILED"@ ==> history_outcome(events) matches Some(
            Err(FlovynErrorView::WorkflowFailed(_)),
        ),
        events[i].0 == "WORKFLOW_CANCELLED"@ ==> history_outcome(events) == Some(
            Err::<Seq<char>, FlovynErrorView>(
                FlovynErrorView::WorkflowCancelled(
                    match member_str(events[i].1, "reason"@) {
                        Some(r) => r,
                        None => "Cancelled"@,
                    },
                ),
            ),
        ),
    decreases i,
{
    reveal_strlit("WORKFLOW_COMPLETED");
    reveal_strlit("WORKFLOW_FAILED");
    reveal_strlit("WORKFLOW_CANCELLED");
    assert("WORKFLOW_FAILED"@ != "WORKFLOW_COMPLETED"@) by {
        assert("WORKFLOW_FAILED"@.len() != "WORKFLOW_COMPLETED"@.len());
    }
    assert("WORKFLOW_CANCELLED"@ != "WORKFLOW_COMPLETED"@) by {
        assert("WORKFLOW_CANCELLED"@[10] != "WORKFLOW_COMPLETED"@[10]);
    }
    assert("WORKFLOW_CANCELLED"@ != "WORKFLOW_FAILED"@) by {
        assert("WORKFLOW_CANCELLED"@.len() != "WORKFLOW_FAILED"@.len());
    }
    if i > 0 {
        assert(!ends_workflow(events[0].0));
        assert(event_outcome(events[0].0, events[0].1) is None);
        let rest = events.drop_first();
        assert forall|j: int| 0 <= j < i - 1 implies !ends_workflow(#[trigger] rest[j].0) by {
            assert(rest[j] == events[j + 1]);
        }
        assert(rest[i - 1] == events[i]);
        law_first_ending_event_decides(rest, i - 1);
    }
}

/// A history with no event that ends the workflow gives no outcome: the
/// workflow is still running.
pub proof fn law_no_ending_event_no_outcome(events: Seq<(Seq<char>, Seq<char>)>)
    requires
        forall|j: int| 0 <= j < events.len() ==> !ends_workflow(#[trigger] events[j].0),
    ensures
        history_outcome(events) is None,
    decreases events.len(),
{
    if events.len() > 0 {
        assert(!ends_workflow(events[0].0));
        let rest = events.drop_first();
        assert forall|j: int| 0 <= j < rest.len() implies !ends_workflow(#[trigger] rest[j].0) by {
            assert(rest[j] == events[j + 1]);
        }
        law_no_ending_event_no_outcome(rest);
    }
}

} // verus!
