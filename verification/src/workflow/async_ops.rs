//! The future-returning forms of the context's operations, which let a
//! workflow start several operations before waiting for any of them.
//!
//! Each call takes its per-kind sequence number and decides at once, as the
//! waiting form does, from the history: a recorded operation is validated
//! and answered from its terminal event, or left pending while it has none;
//! a new one is recorded and left pending (an operation's own result is
//! ready at once). A future that is pending is settled later by its
//! terminal event.

use vstd::prelude::*;
use crate::client::task_execution::spec_uuid_parse;
use crate::common::ids::uuid_text;
use crate::error::{DeterminismViolationView, FlovynError, FlovynErrorView};
use crate::workflow::command::CommandView;
use crate::workflow::context_impl::{
    ContextView, kind_count, kind_event, record, sleep_timer_id, str_or, uuid_step,
};
use crate::workflow::event::{EventType, field_json, field_str};
use crate::workflow::replay::{EventKind, TerminalKind, latest_terminal, or_else};

verus! {

/// How a future-returning call starts: a future that failed at once, one
/// already settled by the history, or one still waiting. `seq` is the call's
/// per-kind sequence number and `id` what the future waits on.
#[derive(Debug)]
pub enum AsyncStart<I, T> {
    /// The call failed before anything was waited on.
    Failed { seq: u32, error: FlovynError },
    /// The history already settles the future.
    Replayed { seq: u32, id: I, result: Result<T, FlovynError> },
    /// The future waits for what `id` names.
    Pending { seq: u32, id: I },
}

/// How a future-returning call starts, as mathematical values.
pub enum AsyncView<I, T> {
    Failed { seq: u32, error: FlovynErrorView },
    Replayed { seq: u32, id: I, result: Result<T, FlovynErrorView> },
    Pending { seq: u32, id: I },
}

/// The start of a future as mathematical values, its ID and value taken by
/// `id_view` and `value_view`.
pub open spec fn start_view<I, T, J, U>(
    r: AsyncStart<I, T>,
    id_view: spec_fn(I) -> J,
    value_view: spec_fn(T) -> U,
) -> AsyncView<J, U> {
    match r {
        AsyncStart::Failed { seq, error } => AsyncView::Failed { seq, error: error@ },
        AsyncStart::Replayed { seq, id, result } => AsyncView::Replayed {
            seq,
            id: id_view(id),
            result: match result {
                Ok(v) => Ok(value_view(v)),
                Err(e) => Err(e@),
            },
        },
        AsyncStart::Pending { seq, id } => AsyncView::Pending { seq, id: id_view(id) },
    }
}

/// A future that waits on a UUID for a JSON value.
pub open spec fn id_value_view(r: AsyncStart<u128, String>) -> AsyncView<u128, Seq<char>> {
    start_view(r, |i: u128| i, |t: String| t@)
}

/// A future that waits on a name for a JSON value.
pub open spec fn name_value_view(r: AsyncStart<String, String>) -> AsyncView<
    Seq<char>,
    Seq<char>,
> {
    start_view(r, |i: String| i@, |t: String| t@)
}

/// A timer's future: it waits on the timer ID, and settles with whether the
/// timer fired (`false`: it was cancelled).
pub open spec fn timer_view(r: AsyncStart<String, bool>) -> AsyncView<Seq<char>, bool> {
    start_view(r, |i: String| i@, |t: bool| t)
}

/// The UUID that a recorded ID spells; the nil UUID when it is absent or
/// spells none.
pub open spec fn recorded_uuid(text: Option<Seq<char>>) -> u128 {
    match text {
        Some(s) => match spec_uuid_parse(s) {
            Some(u) => u,
            None => 0,
        },
        None => 0,
    }
}

/// Starting a task: the n-th task is matched against the n-th
/// `TaskScheduled` event, whose type must agree; its execution ID is the
/// recorded one (nil unless it is a UUID), and the terminal event for that
/// ID settles the future. A new task gets a deterministic execution ID and
/// is recorded with its input and priority.
pub open spec fn task_async_step(
    c: ContextView,
    task_type: Seq<char>,
    input: Seq<char>,
    priority_seconds: Option<i32>,
) -> (ContextView, AsyncView<u128, Seq<char>>) {
    let k = c.next_task_seq;
    let c1 = ContextView { next_task_seq: c.next_task_seq.wrapping_add(1), ..c };
    if (k as int) < kind_count(c, EventKind::Task) {
        let e = kind_event(c, EventKind::Task, k as int);
        let expected = str_or(field_str(e, "taskType"@), Seq::empty());
        if expected != task_type {
            (
                c1,
                AsyncView::Failed {
                    seq: k,
                    error: FlovynErrorView::DeterminismViolation(
                        DeterminismViolationView::TaskTypeMismatch {
                            sequence: k as int,
                            expected,
                            actual: task_type,
                        },
                    ),
                },
            )
        } else {
            let id = recorded_uuid(or_else(field_str(e, "taskExecutionId"@), field_str(e, "taskId"@)));
            match latest_terminal(c.events, TerminalKind::Task, uuid_text(id)) {
                Some(j) => if c.events[j].event_type == EventType::TaskCompleted {
                    (
                        c1,
                        AsyncView::Replayed {
                            seq: k,
                            id,
                            result: Ok(
                                str_or(
                                    or_else(
                                        field_json(c.events[j], "result"@),
                                        field_json(c.events[j], "output"@),
                                    ),
                                    "null"@,
                                ),
                            ),
                        },
                    )
                } else {
                    (
                        c1,
                        AsyncView::Replayed {
                            seq: k,
                            id,
                            result: Err(
                                FlovynErrorView::TaskFailed(
                                    str_or(field_str(c.events[j], "error"@), "Task failed"@),
                                ),
                            ),
                        },
                    )
                },
                None => (c1, AsyncView::Pending { seq: k, id }),
            }
        }
    } else {
        let (c2, id) = uuid_step(c1);
        (
            record(
                c2,
                CommandView::ScheduleTask {
                    sequence_number: c.sequence_number,
                    task_type,
                    task_execution_id: id,
                    input,
                    priority_seconds,
                },
            ),
            AsyncView::Pending { seq: k, id },
        )
    }
}

/// Starting a timer: the n-th sleep uses the timer ID `sleep-<n>` and is
/// matched against the n-th `TimerStarted` event; its terminal event settles
/// the future with whether the timer fired. A new timer is recorded.
pub open spec fn timer_async_step(c: ContextView, duration_ms: i64) -> (
    ContextView,
    AsyncView<Seq<char>, bool>,
) {
    let k = c.next_timer_seq;
    let n = (c.sleep_call_counter + 1) as i32;
    let timer_id = sleep_timer_id(n);
    let c1 = ContextView {
        next_timer_seq: c.next_timer_seq.wrapping_add(1),
        sleep_call_counter: n,
        ..c
    };
    if (k as int) < kind_count(c, EventKind::Timer) {
        let e = kind_event(c, EventKind::Timer, k as int);
        let expected = str_or(field_str(e, "timerId"@), Seq::empty());
        if expected != timer_id {
            (
                c1,
                AsyncView::Failed {
                    seq: k,
                    error: FlovynErrorView::DeterminismViolation(
                        DeterminismViolationView::TimerIdMismatch {
                            sequence: k as int,
                            expected,
                            actual: timer_id,
                        },
                    ),
                },
            )
        } else {
            match latest_terminal(c.events, TerminalKind::Timer, expected) {
                Some(j) => (
                    c1,
                    AsyncView::Replayed {
                        seq: k,
                        id: expected,
                        result: Ok(c.events[j].event_type == EventType::TimerFired),
                    },
                ),
                None => (c1, AsyncView::Pending { seq: k, id: expected }),
            }
        }
    } else {
        (
            record(
                c1,
                CommandView::StartTimer { sequence_number: c.sequence_number, timer_id, duration_ms },
            ),
            AsyncView::Pending { seq: k, id: timer_id },
        )
    }
}

/// Starting a promise: the n-th promise is matched against the n-th
/// `PromiseCreated` event, whose ID must be `name`; its terminal event
/// settles the future (resolved, rejected or timed out). A new promise is
/// recorded without a timeout.
pub open spec fn promise_async_step(c: ContextView, name: Seq<char>) -> (
    ContextView,
    AsyncView<Seq<char>, Seq<char>>,
) {
    let k = c.next_promise_seq;
    let c1 = ContextView { next_promise_seq: c.next_promise_seq.wrapping_add(1), ..c };
    if (k as int) < kind_count(c, EventKind::Promise) {
        let e = kind_event(c, EventKind::Promise, k as int);
        let expected = str_or(
            or_else(field_str(e, "promiseId"@), field_str(e, "promiseName"@)),
            Seq::empty(),
        );
        if expected != name {
            (
                c1,
                AsyncView::Failed {
                    seq: k,
                    error: FlovynErrorView::DeterminismViolation(
                        DeterminismViolationView::PromiseNameMismatch {
                            sequence: k as int,
                            expected,
                            actual: name,
                        },
                    ),
                },
            )
        } else {
            match latest_terminal(c.events, TerminalKind::Promise, expected) {
                Some(j) => (
                    c1,
                    AsyncView::Replayed {
                        seq: k,
                        id: expected,
                        result: if c.events[j].event_type == EventType::PromiseResolved {
                            Ok(str_or(field_json(c.events[j], "value"@), "null"@))
                        } else if c.events[j].event_type == EventType::PromiseRejected {
                            Err(
                                FlovynErrorView::PromiseRejected {
                                    name,
                                    error: str_or(
                                        field_str(c.events[j], "error"@),
                                        "Promise rejected"@,
                                    ),
                                },
                            )
                        } else {
                            Err(FlovynErrorView::PromiseTimeout { name })
                        },
                    },
                ),
                None => (c1, AsyncView::Pending { seq: k, id: expected }),
            }
        }
    } else {
        (
            record(
                c1,
                CommandView::CreatePromise {
                    sequence_number: c.sequence_number,
                    promise_id: name,
                    timeout_ms: None,
                },
            ),
            AsyncView::Pending { seq: k, id: name },
        )
    }
}

/// Starting a child workflow: the n-th child is matched against the n-th
/// `ChildWorkflowInitiated` event, whose name (and, when recorded, kind)
/// must agree; its execution ID is the recorded one (nil unless it is a
/// UUID), and its terminal event settles the future. A new child gets a
/// deterministic execution ID and is recorded.
pub open spec fn child_workflow_async_step(
    c: ContextView,
    name: Seq<char>,
    kind: Seq<char>,
    input: Seq<char>,
) -> (ContextView, AsyncView<u128, Seq<char>>) {
    let k = c.next_child_workflow_seq;
    let c1 = ContextView {
        next_child_workflow_seq: c.next_child_workflow_seq.wrapping_add(1),
        ..c
    };
    if (k as int) < kind_count(c, EventKind::ChildWorkflow) {
        let e = kind_event(c, EventKind::ChildWorkflow, k as int);
        let expected = str_or(field_str(e, "childExecutionName"@), Seq::empty());
        let expected_kind = str_or(field_str(e, "childWorkflowKind"@), Seq::empty());
        if expected != name {
            (
                c1,
                AsyncView::Failed {
                    seq: k,
                    error: FlovynErrorView::DeterminismViolation(
                        DeterminismViolationView::ChildWorkflowMismatch {
                            sequence: k as int,
                            field: "name"@,
                            expected,
                            actual: name,
                        },
                    ),
                },
            )
        } else if expected_kind.len() != 0 && expected_kind != kind {
            (
                c1,
                AsyncView::Failed {
                    seq: k,
                    error: FlovynErrorView::DeterminismViolation(
                        DeterminismViolationView::ChildWorkflowMismatch {
                            sequence: k as int,
                            field: "kind"@,
                            expected: expected_kind,
                            actual: kind,
                        },
                    ),
                },
            )
        } else {
            let id = recorded_uuid(field_str(e, "childExecutionId"@));
            match latest_terminal(c.events, TerminalKind::ChildWorkflow, expected) {
                Some(j) => (
                    c1,
                    AsyncView::Replayed {
                        seq: k,
                        id,
                        result: if c.events[j].event_type == EventType::ChildWorkflowCompleted {
                            Ok(str_or(field_json(c.events[j], "output"@), "null"@))
                        } else {
                            Err(
                                FlovynErrorView::ChildWorkflowFailed {
                                    execution_id: str_or(
                                        field_str(c.events[j], "childworkflowExecutionId"@),
                                        "unknown"@,
                                    ),
                                    name,
                                    error: str_or(
                                        field_str(c.events[j], "error"@),
                                        "Child workflow failed"@,
                                    ),
                                },
                            )
                        },
                    },
                ),
                None => (c1, AsyncView::Pending { seq: k, id }),
            }
        }
    } else {
        let (c2, id) = uuid_step(c1);
        (
            record(
                c2,
                CommandView::ScheduleChildWorkflow {
                    sequence_number: c.sequence_number,
                    name,
                    kind: Some(kind),
                    definition_id: None,
                    child_execution_id: id,
                    input,
                    task_queue: Seq::empty(),
                    priority_seconds: 0,
                },
            ),
            AsyncView::Pending { seq: k, id },
        )
    }
}

/// Running an operation through a future: the n-th operation is matched
/// against the n-th `OperationCompleted` event, whose name must agree, and
/// answers the recorded result; a new one is recorded and answers its own
/// result. Either way the future is ready at once.
pub open spec fn operation_async_step(c: ContextView, name: Seq<char>, result: Seq<char>) -> (
    ContextView,
    AsyncView<Seq<char>, Seq<char>>,
) {
    let k = c.next_operation_seq;
    let c1 = ContextView { next_operation_seq: c.next_operation_seq.wrapping_add(1), ..c };
    if (k as int) < kind_count(c, EventKind::Operation) {
        let e = kind_event(c, EventKind::Operation, k as int);
        let expected = str_or(field_str(e, "operationName"@), Seq::empty());
        if expected != name {
            (
                c1,
                AsyncView::Failed {
                    seq: k,
                    error: FlovynErrorView::DeterminismViolation(
                        DeterminismViolationView::OperationNameMismatch {
                            sequence: k as int,
                            expected,
                            actual: name,
                        },
                    ),
                },
            )
        } else {
            (
                c1,
                AsyncView::Replayed {
                    seq: k,
                    id: name,
                    result: Ok(str_or(field_json(e, "result"@), "null"@)),
                },
            )
        }
    } else {
        (
            record(
                c1,
                CommandView::RecordOperation {
                    sequence_number: c.sequence_number,
                    operation_name: name,
                    result,
                },
            ),
            AsyncView::Replayed { seq: k, id: name, result: Ok(result) },
        )
    }
}

} // verus!
