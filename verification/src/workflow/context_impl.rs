//! The workflow execution context: deterministic replay of a workflow's
//! commands against its recorded history.
//!
//! Each kind of command (task, child workflow, timer, operation, promise,
//! state change) has its own counter. The n-th command of a kind is matched
//! against the n-th history event of that kind; when there is such an event
//! the command is replayed (and validated), otherwise it is new and recorded.

use vstd::prelude::*;
use vstd::utf8::encode_utf8;
use crate::common::ids::{spec_uuid_v5, uuid_text, uuid_to_text, uuid_v5};
use crate::common::kv::{
    KeyValues, KvView, kv_get, kv_insert, kv_keys, kv_remove, kv_unique, lemma_kv_insert,
    lemma_kv_remove,
};
use crate::common::text::{i64_to_decimal, signed_decimal, str_eq};
use crate::error::{DeterminismViolationError, DeterminismViolationView, FlovynError, FlovynErrorView};
use crate::client::task_execution::uuid_parse;
use crate::workflow::async_ops::{
    AsyncStart, child_workflow_async_step, id_value_view, name_value_view, operation_async_step,
    promise_async_step, recorded_uuid, task_async_step, timer_async_step, timer_view,
};
use crate::workflow::command::{CommandView, WorkflowCommand};
use crate::workflow::context::ScheduleTaskOptions;
use crate::common::time::secs_duration;
use crate::workflow::task_submitter::TaskSubmitOptions;
use crate::telemetry::{ExecutionSpan, run_execute_span};
use crate::workflow::event::{
    EventType, ReplayEvent, ReplayEventView, field_json, field_str, history_view,
};
use crate::workflow::replay::{
    EventKind, TerminalKind, find_terminal, is_terminal_for, kind_positions, latest_terminal,
    lemma_kind_positions, lemma_latest_terminal, lemma_state_from_history, or_else,
    positions_of, state_from_history,
};

verus! {

// ============================================================================
// Seeded deterministic random numbers
// ============================================================================

/// One xorshift64 step.
pub open spec fn xorshift(x: u64) -> u64 {
    let a = x ^ (x << 13u64);
    let b = a ^ (a >> 7u64);
    b ^ (b << 17u64)
}

/// Seeded deterministic random number generator (xorshift64).
pub struct SeededRandom {
    state: u64,
}

impl View for SeededRandom {
    type V = u64;

    closed spec fn view(&self) -> u64 {
        self.state
    }
}

impl SeededRandom {
    /// Create a new seeded random with the given seed.
    pub fn new(seed: u64) -> (r: Self)
        ensures
            r@ == seed,
    {
        SeededRandom { state: seed }
    }

    fn next_u64(&mut self) -> (r: u64)
        ensures
            r == xorshift(old(self)@),
            final(self)@ == r,
    {
        let mut x = self.state;
        x = x ^ (x << 13u64);
        x = x ^ (x >> 7u64);
        x = x ^ (x << 17u64);
        self.state = x;
        x
    }

    /// A number in `[min, max)`; `min` itself when the range is empty.
    pub fn next_int(&mut self, min: i32, max: i32) -> (r: i32)
        requires
            min < max ==> max - min <= i32::MAX,
        ensures
            min >= max ==> r == min && final(self)@ == old(self)@,
            min < max ==> final(self)@ == xorshift(old(self)@) && r == min + (xorshift(old(self)@)
                % ((max - min) as u64)),
            min < max ==> min <= r < max,
    {
        if min >= max {
            return min;
        }
        let range = (max - min) as u64;
        let random = self.next_u64();
        let offset = random % range;
        min + offset as i32
    }

    /// A number in `[min, max)`; `min` itself when the range is empty.
    pub fn next_long(&mut self, min: i64, max: i64) -> (r: i64)
        requires
            min < max ==> max - min <= i64::MAX,
        ensures
            min >= max ==> r == min && final(self)@ == old(self)@,
            min < max ==> final(self)@ == xorshift(old(self)@) && r == min + (xorshift(old(self)@)
                % ((max - min) as u64)),
            min < max ==> min <= r < max,
    {
        if min >= max {
            return min;
        }
        let range = (max - min) as u64;
        let random = self.next_u64();
        let offset = random % range;
        min + offset as i64
    }

    /// A boolean: whether the next number is even.
    pub fn next_bool(&mut self) -> (r: bool)
        ensures
            final(self)@ == xorshift(old(self)@),
            r == (xorshift(old(self)@) % 2 == 0),
    {
        self.next_u64() % 2 == 0
    }

    /// The raw next number, for callers that derive other kinds of values.
    pub fn next_raw(&mut self) -> (r: u64)
        ensures
            r == xorshift(old(self)@),
            final(self)@ == r,
    {
        self.next_u64()
    }
}

// ============================================================================
// The model of a context
// ============================================================================

/// A workflow context as mathematical values.
#[verifier::ext_equal]
pub struct ContextView {
    pub workflow_execution_id: u128,
    pub tenant_id: u128,
    pub input: Seq<char>,
    pub events: Seq<ReplayEventView>,
    pub commands: Seq<CommandView>,
    pub sequence_number: i32,
    pub current_time: i64,
    pub uuid_counter: i64,
    pub random: u64,
    pub state: KvView,
    pub cancellation_requested: bool,
    pub pending_tasks: KvView,
    pub pending_promises: KvView,
    pub pending_timers: KvView,
    pub pending_child_workflows: KvView,
    pub sleep_call_counter: i32,
    pub next_task_seq: u32,
    pub next_child_workflow_seq: u32,
    pub next_timer_seq: u32,
    pub next_operation_seq: u32,
    pub next_promise_seq: u32,
    pub next_state_seq: u32,
    pub task_submitter_configured: bool,
    pub enable_telemetry: bool,
    pub span_count: nat,
}

/// Commands as mathematical values.
pub open spec fn commands_view(cs: Seq<WorkflowCommand>) -> Seq<CommandView> {
    cs.map_values(|c: WorkflowCommand| c@)
}

/// A value result as mathematical values.
pub open spec fn value_result(r: Result<String, FlovynError>) -> Result<Seq<char>, FlovynErrorView> {
    match r {
        Ok(s) => Ok(s@),
        Err(e) => Err(e@),
    }
}

/// A unit result as mathematical values.
pub open spec fn unit_result(r: Result<(), FlovynError>) -> Result<(), FlovynErrorView> {
    match r {
        Ok(()) => Ok(()),
        Err(e) => Err(e@),
    }
}

/// The string `o` holds, or `d`.
pub open spec fn str_or(o: Option<Seq<char>>, d: Seq<char>) -> Seq<char> {
    match o {
        Some(s) => s,
        None => d,
    }
}

/// The number of history events of `kind`.
pub open spec fn kind_count(c: ContextView, kind: EventKind) -> int {
    kind_positions(c.events, kind).len() as int
}

/// The `k`-th history event of `kind`.
pub open spec fn kind_event(c: ContextView, kind: EventKind, k: int) -> ReplayEventView {
    c.events[kind_positions(c.events, kind)[k]]
}

/// `c` with `cmd` recorded under the current sequence number, which advances.
pub open spec fn record(c: ContextView, cmd: CommandView) -> ContextView {
    ContextView {
        commands: c.commands.push(cmd),
        sequence_number: c.sequence_number.wrapping_add(1),
        ..c
    }
}

/// The suspension error with `reason`.
pub open spec fn suspended(reason: Seq<char>) -> FlovynErrorView {
    FlovynErrorView::Suspended { reason }
}

/// The context that a new execution starts from.
pub open spec fn initial_context(
    workflow_execution_id: u128,
    tenant_id: u128,
    input: Seq<char>,
    events: Seq<ReplayEventView>,
    start_time_millis: i64,
    task_submitter_configured: bool,
    enable_telemetry: bool,
) -> ContextView {
    ContextView {
        workflow_execution_id,
        tenant_id,
        input,
        events,
        commands: Seq::empty(),
        sequence_number: (events.len() + 1) as i32,
        current_time: start_time_millis,
        uuid_counter: 0,
        random: workflow_execution_id as u64,
        state: state_from_history(events),
        cancellation_requested: false,
        pending_tasks: Seq::empty(),
        pending_promises: Seq::empty(),
        pending_timers: Seq::empty(),
        pending_child_workflows: Seq::empty(),
        sleep_call_counter: 0,
        next_task_seq: 0,
        next_child_workflow_seq: 0,
        next_timer_seq: 0,
        next_operation_seq: 0,
        next_promise_seq: 0,
        next_state_seq: 0,
        task_submitter_configured,
        enable_telemetry,
        span_count: 0,
    }
}

/// A deterministic UUID: version 5 of `"<execution id>:<counter>"` in the
/// namespace of the execution ID; the counter advances.
pub open spec fn uuid_step(c: ContextView) -> (ContextView, u128) {
    (
        ContextView { uuid_counter: c.uuid_counter.wrapping_add(1), ..c },
        spec_uuid_v5(
            c.workflow_execution_id,
            encode_utf8(
                uuid_text(c.workflow_execution_id) + ":"@ + signed_decimal(c.uuid_counter as int),
            ),
        ),
    )
}

/// Running a side-effect operation: on replay the recorded result is
/// returned (the given one is ignored); otherwise the given result is
/// recorded and returned, and with telemetry on a span is recorded.
pub open spec fn run_step(c: ContextView, name: Seq<char>, result: Seq<char>) -> (
    ContextView,
    Result<Seq<char>, FlovynErrorView>,
) {
    let k = c.next_operation_seq as int;
    let c1 = ContextView { next_operation_seq: c.next_operation_seq.wrapping_add(1), ..c };
    if k < kind_count(c, EventKind::Operation) {
        let e = kind_event(c, EventKind::Operation, k);
        let expected = str_or(field_str(e, "operationName"@), Seq::empty());
        if expected != name {
            (
                c1,
                Err(
                    FlovynErrorView::DeterminismViolation(
                        DeterminismViolationView::OperationNameMismatch {
                            sequence: k,
                            expected,
                            actual: name,
                        },
                    ),
                ),
            )
        } else {
            (c1, Ok(str_or(field_json(e, "result"@), "null"@)))
        }
    } else {
        let c2 = record(
            c1,
            CommandView::RecordOperation {
                sequence_number: c.sequence_number,
                operation_name: name,
                result,
            },
        );
        (
            ContextView {
                span_count: if c.enable_telemetry {
                    c.span_count + 1
                } else {
                    c.span_count
                },
                ..c2
            },
            Ok(result),
        )
    }
}

/// What scheduling a task decides before any submission.
pub enum TaskSchedulingView {
    /// The call is answered without submitting anything.
    Done(Result<Seq<char>, FlovynErrorView>),
    /// The task is new and must be submitted.
    Submit,
}

/// Scheduling a task: on replay, the task type is validated and the task's
/// terminal event answers (result, failure, or suspension while it runs);
/// a new task must be submitted, which needs a task submitter.
pub open spec fn schedule_step(c: ContextView, task_type: Seq<char>) -> (
    ContextView,
    TaskSchedulingView,
) {
    let k = c.next_task_seq as int;
    let c1 = ContextView { next_task_seq: c.next_task_seq.wrapping_add(1), ..c };
    if k < kind_count(c, EventKind::Task) {
        let e = kind_event(c, EventKind::Task, k);
        let expected = str_or(field_str(e, "taskType"@), Seq::empty());
        if expected != task_type {
            (
                c1,
                TaskSchedulingView::Done(
                    Err(
                        FlovynErrorView::DeterminismViolation(
                            DeterminismViolationView::TaskTypeMismatch {
                                sequence: k,
                                expected,
                                actual: task_type,
                            },
                        ),
                    ),
                ),
            )
        } else {
            match or_else(field_str(e, "taskExecutionId"@), field_str(e, "taskId"@)) {
                None => (
                    c1,
                    TaskSchedulingView::Done(
                        Err(
                            FlovynErrorView::Other(
                                "TaskScheduled event missing taskExecutionId"@,
                            ),
                        ),
                    ),
                ),
                Some(id) => match latest_terminal(c.events, TerminalKind::Task, id) {
                    Some(j) => if c.events[j].event_type == EventType::TaskCompleted {
                        (
                            c1,
                            TaskSchedulingView::Done(
                                Ok(
                                    str_or(
                                        or_else(
                                            field_json(c.events[j], "result"@),
                                            field_json(c.events[j], "output"@),
                                        ),
                                        "null"@,
                                    ),
                                ),
                            ),
                        )
                    } else {
                        (
                            c1,
                            TaskSchedulingView::Done(
                                Err(
                                    FlovynErrorView::TaskFailed(
                                        str_or(field_str(c.events[j], "error"@), "Task failed"@),
                                    ),
                                ),
                            ),
                        )
                    },
                    None => (
                        c1,
                        TaskSchedulingView::Done(
                            Err(suspended("Task is still running: "@ + task_type)),
                        ),
                    ),
                },
            }
        }
    } else if !c.task_submitter_configured {
        (
            c1,
            TaskSchedulingView::Done(
                Err(
                    FlovynErrorView::Other(
                        "TaskSubmitter is not configured. Cannot schedule task '"@ + task_type
                            + "'"@,
                    ),
                ),
            ),
        )
    } else {
        (c1, TaskSchedulingView::Submit)
    }
}

/// Recording a submitted task: the command carries the execution ID the
/// submitter assigned, and the workflow suspends until the task completes.
pub open spec fn record_task_step(
    c: ContextView,
    task_type: Seq<char>,
    input: Seq<char>,
    priority_seconds: Option<i32>,
    task_execution_id: u128,
) -> (ContextView, FlovynErrorView) {
    (
        record(
            c,
            CommandView::ScheduleTask {
                sequence_number: c.sequence_number,
                task_type,
                task_execution_id,
                input,
                priority_seconds,
            },
        ),
        suspended("Task scheduled: "@ + task_type),
    )
}

/// Setting (`set == true`) or clearing a state key.
pub open spec fn state_step(c: ContextView, key: Seq<char>, value: Seq<char>, set: bool) -> (
    ContextView,
    Result<(), FlovynErrorView>,
) {
    let k = c.next_state_seq as int;
    let c1 = ContextView { next_state_seq: c.next_state_seq.wrapping_add(1), ..c };
    let wanted = if set {
        EventType::StateSet
    } else {
        EventType::StateCleared
    };
    let new_state = if set {
        kv_insert(c.state, key, value)
    } else {
        kv_remove(c.state, key)
    };
    if k < kind_count(c, EventKind::State) {
        let e = kind_event(c, EventKind::State, k);
        if e.event_type != wanted {
            (
                c1,
                Err(
                    FlovynErrorView::DeterminismViolation(
                        DeterminismViolationView::TypeMismatch {
                            sequence: k,
                            expected: wanted,
                            actual: e.event_type,
                        },
                    ),
                ),
            )
        } else {
            let expected = str_or(field_str(e, "key"@), Seq::empty());
            if expected != key {
                (
                    c1,
                    Err(
                        FlovynErrorView::DeterminismViolation(
                            DeterminismViolationView::StateKeyMismatch {
                                sequence: k,
                                expected,
                                actual: key,
                            },
                        ),
                    ),
                )
            } else {
                (ContextView { state: new_state, ..c1 }, Ok(()))
            }
        }
    } else {
        let cmd = if set {
            CommandView::SetState { sequence_number: c.sequence_number, key, value }
        } else {
            CommandView::ClearState { sequence_number: c.sequence_number, key }
        };
        (ContextView { state: new_state, ..record(c1, cmd) }, Ok(()))
    }
}

/// Clearing each of `keys` in turn, stopping at the first error.
pub open spec fn clear_keys_step(c: ContextView, keys: Seq<Seq<char>>) -> (
    ContextView,
    Result<(), FlovynErrorView>,
)
    decreases keys.len(),
{
    if keys.len() == 0 {
        (c, Ok(()))
    } else {
        let (c1, r) = state_step(c, keys[0], Seq::empty(), false);
        if r is Err {
            (c1, r)
        } else {
            clear_keys_step(c1, keys.drop_first())
        }
    }
}

/// The ID of the `n`-th timer of an execution.
pub open spec fn sleep_timer_id(n: i32) -> Seq<char> {
    "sleep-"@ + signed_decimal(n as int)
}

/// Sleeping: the timer ID is `sleep-<n>` for the n-th sleep; on replay it is
/// validated and the timer's terminal event answers; a new timer is started
/// and the workflow suspends.
pub open spec fn sleep_step(c: ContextView, duration_ms: i64) -> (
    ContextView,
    Result<(), FlovynErrorView>,
) {
    let k = c.next_timer_seq as int;
    let n = (c.sleep_call_counter + 1) as i32;
    let timer_id = sleep_timer_id(n);
    let c1 = ContextView {
        next_timer_seq: c.next_timer_seq.wrapping_add(1),
        sleep_call_counter: n,
        ..c
    };
    if k < kind_count(c, EventKind::Timer) {
        let e = kind_event(c, EventKind::Timer, k);
        let expected = str_or(field_str(e, "timerId"@), Seq::empty());
        if expected != timer_id {
            (
                c1,
                Err(
                    FlovynErrorView::DeterminismViolation(
                        DeterminismViolationView::TimerIdMismatch {
                            sequence: k,
                            expected,
                            actual: timer_id,
                        },
                    ),
                ),
            )
        } else {
            match latest_terminal(c.events, TerminalKind::Timer, expected) {
                Some(j) => if c.events[j].event_type == EventType::TimerFired {
                    (c1, Ok(()))
                } else {
                    (
                        c1,
                        Err(
                            FlovynErrorView::TimerError(
                                "Timer '"@ + expected + "' was cancelled"@,
                            ),
                        ),
                    )
                },
                None => (c1, Err(suspended("Waiting for timer: "@ + expected))),
            }
        }
    } else {
        (
            record(
                c1,
                CommandView::StartTimer { sequence_number: c.sequence_number, timer_id, duration_ms },
            ),
            Err(suspended("Waiting for timer: "@ + timer_id)),
        )
    }
}

/// Awaiting a promise: on replay the name is validated and the promise's
/// terminal event answers; a new promise is created and answered from the
/// values resolved in-process, or the workflow suspends.
pub open spec fn promise_step(c: ContextView, name: Seq<char>, timeout_ms: Option<i64>) -> (
    ContextView,
    Result<Seq<char>, FlovynErrorView>,
) {
    let k = c.next_promise_seq as int;
    let c1 = ContextView { next_promise_seq: c.next_promise_seq.wrapping_add(1), ..c };
    if k < kind_count(c, EventKind::Promise) {
        let e = kind_event(c, EventKind::Promise, k);
        let expected = str_or(
            or_else(field_str(e, "promiseId"@), field_str(e, "promiseName"@)),
            Seq::empty(),
        );
        if expected != name {
            (
                c1,
                Err(
                    FlovynErrorView::DeterminismViolation(
                        DeterminismViolationView::PromiseNameMismatch {
                            sequence: k,
                            expected,
                            actual: name,
                        },
                    ),
                ),
            )
        } else {
            match latest_terminal(c.events, TerminalKind::Promise, expected) {
                Some(j) => if c.events[j].event_type == EventType::PromiseResolved {
                    (c1, Ok(str_or(field_json(c.events[j], "value"@), "null"@)))
                } else if c.events[j].event_type == EventType::PromiseRejected {
                    (
                        c1,
                        Err(
                            FlovynErrorView::PromiseRejected {
                                name,
                                error: str_or(
                                    field_str(c.events[j], "error"@),
                                    "Promise rejected"@,
                                ),
                            },
                        ),
                    )
                } else {
                    (c1, Err(FlovynErrorView::PromiseTimeout { name }))
                },
                None => (c1, Err(suspended("Waiting for promise: "@ + name))),
            }
        }
    } else {
        let c2 = record(
            c1,
            CommandView::CreatePromise {
                sequence_number: c.sequence_number,
                promise_id: name,
                timeout_ms,
            },
        );
        match kv_get(c.pending_promises, name) {
            Some(v) => (c2, Ok(v)),
            None => (c2, Err(suspended("Waiting for promise: "@ + name))),
        }
    }
}

/// Scheduling a child workflow: on replay its name (and, when recorded, its
/// kind) is validated and its terminal event answers; a new child workflow
/// gets a deterministic execution ID, is recorded, and is answered from the
/// results resolved in-process, or the workflow suspends.
pub open spec fn child_workflow_step(
    c: ContextView,
    name: Seq<char>,
    kind: Seq<char>,
    input: Seq<char>,
) -> (ContextView, Result<Seq<char>, FlovynErrorView>) {
    let k = c.next_child_workflow_seq as int;
    let c1 = ContextView {
        next_child_workflow_seq: c.next_child_workflow_seq.wrapping_add(1),
        ..c
    };
    if k < kind_count(c, EventKind::ChildWorkflow) {
        let e = kind_event(c, EventKind::ChildWorkflow, k);
        let expected = str_or(field_str(e, "childExecutionName"@), Seq::empty());
        let expected_kind = str_or(field_str(e, "childWorkflowKind"@), Seq::empty());
        if expected != name {
            (
                c1,
                Err(
                    FlovynErrorView::DeterminismViolation(
                        DeterminismViolationView::ChildWorkflowMismatch {
                            sequence: k,
                            field: "name"@,
                            expected,
                            actual: name,
                        },
                    ),
                ),
            )
        } else if expected_kind.len() != 0 && expected_kind != kind {
            (
                c1,
                Err(
                    FlovynErrorView::DeterminismViolation(
                        DeterminismViolationView::ChildWorkflowMismatch {
                            sequence: k,
                            field: "kind"@,
                            expected: expected_kind,
                            actual: kind,
                        },
                    ),
                ),
            )
        } else {
            match latest_terminal(c.events, TerminalKind::ChildWorkflow, expected) {
                Some(j) => if c.events[j].event_type == EventType::ChildWorkflowCompleted {
                    (c1, Ok(str_or(field_json(c.events[j], "output"@), "null"@)))
                } else {
                    (
                        c1,
                        Err(
                            FlovynErrorView::ChildWorkflowFailed {
                                execution_id: str_or(
                                    field_str(c.events[j], "childworkflowExecutionId"@),
                                    "unknown"@,
                                ),
                                name,
                                error: str_or(
                                    field_str(c.events[j], "error"@),
                                    "Child workflow failed"@,
                                ),
                            },
                        ),
                    )
                },
                None => (c1, Err(suspended("Waiting for child workflow: "@ + name))),
            }
        }
    } else {
        let (c2, child_execution_id) = uuid_step(c1);
        let c3 = record(
            c2,
            CommandView::ScheduleChildWorkflow {
                sequence_number: c.sequence_number,
                name,
                kind: Some(kind),
                definition_id: None,
                child_execution_id,
                input,
                task_queue: Seq::empty(),
                priority_seconds: 0,
            },
        );
        match kv_get(c.pending_child_workflows, name) {
            Some(v) => (c3, Ok(v)),
            None => (c3, Err(suspended("Waiting for child workflow: "@ + name))),
        }
    }
}

// ============================================================================
// The context
// ============================================================================

/// A task that must be submitted before the workflow can go on.
pub struct TaskSubmission {
    /// The task type.
    pub task_type: String,
    /// The task's input (JSON text).
    pub input: String,
    /// The submission options.
    pub options: TaskSubmitOptions,
}

/// What scheduling a task decided.
pub enum TaskScheduling {
    /// The call is answered without submitting anything.
    Done(Result<String, FlovynError>),
    /// The task is new: submit it, then pass the assigned execution ID to
    /// [`WorkflowContextImpl::record_scheduled_task`].
    Submit(TaskSubmission),
}

impl TaskScheduling {
    /// The decision as mathematical values.
    pub open spec fn view_decision(&self) -> TaskSchedulingView {
        match self {
            TaskScheduling::Done(r) => TaskSchedulingView::Done(value_result(*r)),
            TaskScheduling::Submit(_) => TaskSchedulingView::Submit,
        }
    }
}

/// Concrete workflow context: replays commands against history and records
/// new ones.
pub struct WorkflowContextImpl {
    workflow_execution_id: u128,
    tenant_id: u128,
    input: String,
    commands: Vec<WorkflowCommand>,
    existing_events: Vec<ReplayEvent>,
    sequence_number: i32,
    current_time: i64,
    uuid_counter: i64,
    random: SeededRandom,
    state: KeyValues,
    cancellation_requested: bool,
    pending_tasks: KeyValues,
    pending_promises: KeyValues,
    pending_timers: KeyValues,
    pending_child_workflows: KeyValues,
    sleep_call_counter: i32,
    task_events: Vec<usize>,
    child_workflow_events: Vec<usize>,
    timer_events: Vec<usize>,
    operation_events: Vec<usize>,
    promise_events: Vec<usize>,
    state_events: Vec<usize>,
    next_task_seq: u32,
    next_child_workflow_seq: u32,
    next_timer_seq: u32,
    next_operation_seq: u32,
    next_promise_seq: u32,
    next_state_seq: u32,
    task_submitter_configured: bool,
    enable_telemetry: bool,
    recorded_spans: Vec<ExecutionSpan>,
}

/// `idx` lists exactly the positions of the events of `kind`.
pub open spec fn indexes_kind(idx: Seq<usize>, evs: Seq<ReplayEventView>, kind: EventKind) -> bool {
    &&& idx.len() == kind_positions(evs, kind).len()
    &&& forall|k: int| 0 <= k < idx.len() ==> idx[k] as int == #[trigger] kind_positions(evs, kind)[k]
}

impl View for WorkflowContextImpl {
    type V = ContextView;

    closed spec fn view(&self) -> ContextView {
        ContextView {
            workflow_execution_id: self.workflow_execution_id,
            tenant_id: self.tenant_id,
            input: self.input@,
            events: history_view(self.existing_events@),
            commands: commands_view(self.commands@),
            sequence_number: self.sequence_number,
            current_time: self.current_time,
            uuid_counter: self.uuid_counter,
            random: self.random@,
            state: self.state@,
            cancellation_requested: self.cancellation_requested,
            pending_tasks: self.pending_tasks@,
            pending_promises: self.pending_promises@,
            pending_timers: self.pending_timers@,
            pending_child_workflows: self.pending_child_workflows@,
            sleep_call_counter: self.sleep_call_counter,
            next_task_seq: self.next_task_seq,
            next_child_workflow_seq: self.next_child_workflow_seq,
            next_timer_seq: self.next_timer_seq,
            next_operation_seq: self.next_operation_seq,
            next_promise_seq: self.next_promise_seq,
            next_state_seq: self.next_state_seq,
            task_submitter_configured: self.task_submitter_configured,
            enable_telemetry: self.enable_telemetry,
            span_count: self.recorded_spans@.len(),
        }
    }
}

impl WorkflowContextImpl {
    /// The context's invariant: the per-kind event lists index the history,
    /// the maps have unique keys, and the history fits in `i32` positions.
    pub closed spec fn wf(&self) -> bool {
        let evs = history_view(self.existing_events@);
        &&& self.existing_events@.len() < i32::MAX
        &&& indexes_kind(self.task_events@, evs, EventKind::Task)
        &&& indexes_kind(self.child_workflow_events@, evs, EventKind::ChildWorkflow)
        &&& indexes_kind(self.timer_events@, evs, EventKind::Timer)
        &&& indexes_kind(self.operation_events@, evs, EventKind::Operation)
        &&& indexes_kind(self.promise_events@, evs, EventKind::Promise)
        &&& indexes_kind(self.state_events@, evs, EventKind::State)
        &&& self.state.wf()
        &&& self.pending_tasks.wf()
        &&& self.pending_promises.wf()
        &&& self.pending_timers.wf()
        &&& self.pending_child_workflows.wf()
    }

    proof fn lemma_kinds(&self)
        requires
            self.wf(),
        ensures
            self@.events.len() == self.existing_events@.len(),
            forall|i: int|
                0 <= i < self@.events.len() ==> #[trigger] self@.events[i]
                    == self.existing_events@[i]@,
            kind_count(self@, EventKind::Task) <= self@.events.len(),
            kind_count(self@, EventKind::ChildWorkflow) <= self@.events.len(),
            kind_count(self@, EventKind::Timer) <= self@.events.len(),
            kind_count(self@, EventKind::Operation) <= self@.events.len(),
            kind_count(self@, EventKind::Promise) <= self@.events.len(),
            kind_count(self@, EventKind::State) <= self@.events.len(),
            forall|kind: EventKind, k: int|
                0 <= k < kind_count(self@, kind) ==> 0 <= #[trigger] kind_positions(
                    self@.events,
                    kind,
                )[k] < self@.events.len(),
    {
        lemma_kind_positions(self@.events, EventKind::Task);
        lemma_kind_positions(self@.events, EventKind::ChildWorkflow);
        lemma_kind_positions(self@.events, EventKind::Timer);
        lemma_kind_positions(self@.events, EventKind::Operation);
        lemma_kind_positions(self@.events, EventKind::Promise);
        lemma_kind_positions(self@.events, EventKind::State);
        assert forall|kind: EventKind, k: int|
            0 <= k < kind_count(self@, kind) implies 0 <= #[trigger] kind_positions(
            self@.events,
            kind,
        )[k] < self@.events.len() by {
            lemma_kind_positions(self@.events, kind);
        }
    }

    /// Create a context with no task submitter and telemetry off.
    pub fn new(
        workflow_execution_id: u128,
        tenant_id: u128,
        input: String,
        existing_events: Vec<ReplayEvent>,
        start_time_millis: i64,
    ) -> (r: Self)
        requires
            existing_events@.len() < i32::MAX,
        ensures
            r.wf(),
            r@ == initial_context(
                workflow_execution_id,
                tenant_id,
                input@,
                history_view(existing_events@),
                start_time_millis,
                false,
                false,
            ),
    {
        Self::new_with_telemetry(
            workflow_execution_id,
            tenant_id,
            input,
            existing_events,
            start_time_millis,
            false,
            false,
        )
    }

    /// Create a context; `task_submitter_configured` tells whether new tasks
    /// can be submitted.
    pub fn new_with_task_submitter(
        workflow_execution_id: u128,
        tenant_id: u128,
        input: String,
        existing_events: Vec<ReplayEvent>,
        start_time_millis: i64,
        task_submitter_configured: bool,
    ) -> (r: Self)
        requires
            existing_events@.len() < i32::MAX,
        ensures
            r.wf(),
            r@ == initial_context(
                workflow_execution_id,
                tenant_id,
                input@,
                history_view(existing_events@),
                start_time_millis,
                task_submitter_configured,
                false,
            ),
    {
        Self::new_with_telemetry(
            workflow_execution_id,
            tenant_id,
            input,
            existing_events,
            start_time_millis,
            task_submitter_configured,
            false,
        )
    }

    /// Create a context with a task-submitter flag and telemetry setting.
    pub fn new_with_telemetry(
        workflow_execution_id: u128,
        tenant_id: u128,
        input: String,
        existing_events: Vec<ReplayEvent>,
        start_time_millis: i64,
        task_submitter_configured: bool,
        enable_telemetry: bool,
    ) -> (r: Self)
        requires
            existing_events@.len() < i32::MAX,
        ensures
            r.wf(),
            r@ == initial_context(
                workflow_execution_id,
                tenant_id,
                input@,
                history_view(existing_events@),
                start_time_millis,
                task_submitter_configured,
                enable_telemetry,
            ),
    {
        let state = Self::state_of_history(&existing_events);
        let task_events = positions_of(&existing_events, EventKind::Task);
        let child_workflow_events = positions_of(&existing_events, EventKind::ChildWorkflow);
        let timer_events = positions_of(&existing_events, EventKind::Timer);
        let operation_events = positions_of(&existing_events, EventKind::Operation);
        let promise_events = positions_of(&existing_events, EventKind::Promise);
        let state_events = positions_of(&existing_events, EventKind::State);
        let initial_sequence = (existing_events.len() as i32) + 1;
        let r = WorkflowContextImpl {
            workflow_execution_id,
            tenant_id,
            input,
            commands: Vec::new(),
            existing_events,
            sequence_number: initial_sequence,
            current_time: start_time_millis,
            uuid_counter: 0,
            random: SeededRandom::new(workflow_execution_id as u64),
            state,
            cancellation_requested: false,
            pending_tasks: KeyValues::new(),
            pending_promises: KeyValues::new(),
            pending_timers: KeyValues::new(),
            pending_child_workflows: KeyValues::new(),
            sleep_call_counter: 0,
            task_events,
            child_workflow_events,
            timer_events,
            operation_events,
            promise_events,
            state_events,
            next_task_seq: 0,
            next_child_workflow_seq: 0,
            next_timer_seq: 0,
            next_operation_seq: 0,
            next_promise_seq: 0,
            next_state_seq: 0,
            task_submitter_configured,
            enable_telemetry,
            recorded_spans: Vec::new(),
        };
        assert(commands_view(r.commands@) =~= Seq::<CommandView>::empty());
        r
    }

    fn state_of_history(events: &Vec<ReplayEvent>) -> (r: KeyValues)
        ensures
            r@ == state_from_history(history_view(events@)),
            r.wf(),
    {
        let ghost evs = history_view(events@);
        let mut m = KeyValues::new();
        let mut i: usize = 0;
        while i < events.len()
            invariant
                i <= events@.len(),
                evs == history_view(events@),
                m@ == state_from_history(evs.take(i as int)),
                m.wf(),
            decreases events@.len() - i,
        {
            let ghost t = evs.take(i + 1);
            assert(t.drop_last() =~= evs.take(i as int));
            assert(t.last() == events@[i as int]@);
            proof {
                lemma_state_from_history(evs.take(i as int));
            }
            let e = &events[i];
            if e.event_type == EventType::StateSet {
                match (e.get_string("key"), e.get("value")) {
                    (Some(k), Some(v)) => {
                        m.insert(k.as_str(), v);
                    },
                    (Some(k), None) => {},
                    (None, _) => {},
                }
            } else if e.event_type == EventType::StateCleared {
                match e.get_string("key") {
                    Some(k) => {
                        m.remove(k.as_str());
                    },
                    None => {},
                }
            }
            i = i + 1;
        }
        assert(evs.take(i as int) =~= evs);
        m
    }

    fn next_sequence(&mut self) -> (r: i32)
        ensures
            r == old(self).sequence_number,
            *final(self) == (WorkflowContextImpl {
                sequence_number: old(self).sequence_number.wrapping_add(1),
                ..*old(self)
            }),
    {
        let s = self.sequence_number;
        self.sequence_number = s.wrapping_add(1);
        s
    }
}

impl WorkflowContextImpl {
    /// The unique ID of the workflow execution.
    pub fn workflow_execution_id(&self) -> (r: u128)
        ensures
            r == self@.workflow_execution_id,
    {
        self.workflow_execution_id
    }

    /// The tenant ID of the workflow.
    pub fn tenant_id(&self) -> (r: u128)
        ensures
            r == self@.tenant_id,
    {
        self.tenant_id
    }

    /// The workflow input (JSON text).
    pub fn input_raw(&self) -> (r: &String)
        ensures
            r@ == self@.input,
    {
        &self.input
    }

    /// Deterministic current time (milliseconds since epoch).
    pub fn current_time_millis(&self) -> (r: i64)
        ensures
            r == self@.current_time,
    {
        self.current_time
    }

    /// Request cancellation.
    pub fn request_cancellation(&mut self)
        requires
            old(self).wf(),
        ensures
            final(self).wf(),
            final(self)@ == (ContextView { cancellation_requested: true, ..old(self)@ }),
    {
        self.cancellation_requested = true;
    }

    /// Whether cancellation has been requested.
    pub fn is_cancellation_requested(&self) -> (r: bool)
        ensures
            r == self@.cancellation_requested,
    {
        self.cancellation_requested
    }

    /// `Err(WorkflowCancelled("Cancellation requested"))` once cancellation
    /// has been requested, `Ok(())` before.
    pub fn check_cancellation(&self) -> (r: Result<(), FlovynError>)
        ensures
            unit_result(r) == if self@.cancellation_requested {
                Err(FlovynErrorView::WorkflowCancelled("Cancellation requested"@))
            } else {
                Ok(())
            },
    {
        if self.cancellation_requested {
            Err(FlovynError::WorkflowCancelled(String::from_str("Cancellation requested")))
        } else {
            Ok(())
        }
    }

    /// A deterministic UUID; successive calls give successive UUIDs.
    pub fn random_uuid(&mut self) -> (r: u128)
        requires
            old(self).wf(),
        ensures
            final(self).wf(),
            (final(self)@, r) == uuid_step(old(self)@),
    {
        let counter = self.uuid_counter;
        self.uuid_counter = counter.wrapping_add(1);
        let name = uuid_to_text(self.workflow_execution_id).concat(":").concat(
            i64_to_decimal(counter).as_str(),
        );
        assert(name@ =~= uuid_text(self.workflow_execution_id) + ":"@ + signed_decimal(
            counter as int,
        ));
        uuid_v5(self.workflow_execution_id, name.as_str().as_bytes())
    }

    /// A deterministic random number in `[min, max)`.
    pub fn random_int(&mut self, min: i32, max: i32) -> (r: i32)
        requires
            old(self).wf(),
            min < max ==> max - min <= i32::MAX,
        ensures
            final(self).wf(),
            min >= max ==> r == min && final(self)@ == old(self)@,
            min < max ==> final(self)@ == (ContextView {
                random: xorshift(old(self)@.random),
                ..old(self)@
            }) && r == min + (xorshift(old(self)@.random) % ((max - min) as u64)),
    {
        self.random.next_int(min, max)
    }

    /// A deterministic random number in `[min, max)`.
    pub fn random_long(&mut self, min: i64, max: i64) -> (r: i64)
        requires
            old(self).wf(),
            min < max ==> max - min <= i64::MAX,
        ensures
            final(self).wf(),
            min >= max ==> r == min && final(self)@ == old(self)@,
            min < max ==> final(self)@ == (ContextView {
                random: xorshift(old(self)@.random),
                ..old(self)@
            }) && r == min + (xorshift(old(self)@.random) % ((max - min) as u64)),
    {
        self.random.next_long(min, max)
    }

    /// A deterministic random boolean.
    pub fn random_bool(&mut self) -> (r: bool)
        requires
            old(self).wf(),
        ensures
            final(self).wf(),
            final(self)@ == (ContextView { random: xorshift(old(self)@.random), ..old(self)@ }),
            r == (xorshift(old(self)@.random) % 2 == 0),
    {
        self.random.next_bool()
    }

    /// The raw next deterministic random number.
    pub fn random_raw(&mut self) -> (r: u64)
        requires
            old(self).wf(),
        ensures
            final(self).wf(),
            final(self)@ == (ContextView { random: xorshift(old(self)@.random), ..old(self)@ }),
            r == xorshift(old(self)@.random),
    {
        self.random.next_raw()
    }

    /// The spans recorded while telemetry is on.
    pub closed spec fn recorded_spans(&self) -> Seq<ExecutionSpan> {
        self.recorded_spans@
    }

    /// Run a side-effect operation named `name` whose result (JSON text) is
    /// `result`. A new operation, with telemetry on, records a finished
    /// `run.execute` span.
    pub fn run_raw(&mut self, name: &str, result: String) -> (r: Result<String, FlovynError>)
        requires
            old(self).wf(),
        ensures
            final(self).wf(),
            (final(self)@, value_result(r)) == run_step(old(self)@, name@, result@),
            final(self).recorded_spans().len() == old(self).recorded_spans().len()
                ==> final(self).recorded_spans() == old(self).recorded_spans(),
            final(self).recorded_spans().len() > old(self).recorded_spans().len() ==> ({
                let span = final(self).recorded_spans().last();
                &&& final(self).recorded_spans().drop_last() == old(self).recorded_spans()
                &&& span.span_type@ == "run.execute"@
                &&& span.workflow_id@ == uuid_text(old(self)@.workflow_execution_id)
                &&& span.task_id is None
                &&& span.parent_span_id is None
                &&& span.attributes@ == seq![("operation.name"@, name@)]
                &&& !span.is_error
            }),
    {
        proof {
            self.lemma_kinds();
        }
        let ghost c = self@;
        let k = self.next_operation_seq;
        self.next_operation_seq = k.wrapping_add(1);
        let ki = k as usize;
        if ki < self.operation_events.len() {
            let pos = self.operation_events[ki];
            assert(kind_positions(c.events, EventKind::Operation)[ki as int] == pos as int);
            let ev = &self.existing_events[pos];
            let expected = match ev.get_string("operationName") {
                Some(s) => s,
                None => String::new(),
            };
            if !str_eq(expected.as_str(), name) {
                return Err(
                    FlovynError::DeterminismViolation(
                        DeterminismViolationError::OperationNameMismatch {
                            sequence: ki as i32,
                            expected,
                            actual: String::from_str(name),
                        },
                    ),
                );
            }
            let cached = match ev.get("result") {
                Some(s) => s,
                None => String::from_str("null"),
            };
            return Ok(cached);
        }
        let seq = self.next_sequence();
        self.commands.push(
            WorkflowCommand::RecordOperation {
                sequence_number: seq,
                operation_name: String::from_str(name),
                result: result.clone(),
            },
        );
        if self.enable_telemetry {
            let span = run_execute_span(uuid_to_text(self.workflow_execution_id).as_str(), name).finish();
            self.recorded_spans.push(span);
            assert(self.recorded_spans@.drop_last() =~= old(self).recorded_spans@);
        }
        assert(self@ =~= run_step(c, name@, result@).0);
        Ok(result)
    }
}

impl WorkflowContextImpl {
    /// Schedule a task with default options; see
    /// [`Self::schedule_with_options_raw`].
    pub fn schedule_raw(&mut self, task_type: &str, input: String) -> (r: TaskScheduling)
        requires
            old(self).wf(),
        ensures
            final(self).wf(),
            (final(self)@, r.view_decision()) == schedule_step(old(self)@, task_type@),
            r matches TaskScheduling::Submit(s) ==> s.task_type@ == task_type@ && s.input@ == input@
                && s.options.max_retries == 3 && s.options.timeout == secs_duration(300)
                && s.options.queue is None && s.options.priority_seconds is None,
    {
        self.schedule_with_options_raw(task_type, input, ScheduleTaskOptions::default())
    }

    /// Schedule a task: the n-th task of the execution is matched against
    /// the n-th `TaskScheduled` event. On replay the call is answered from the
    /// history; a new task comes back as a [`TaskScheduling::Submit`].
    pub fn schedule_with_options_raw(
        &mut self,
        task_type: &str,
        input: String,
        options: ScheduleTaskOptions,
    ) -> (r: TaskScheduling)
        requires
            old(self).wf(),
        ensures
            final(self).wf(),
            (final(self)@, r.view_decision()) == schedule_step(old(self)@, task_type@),
            r matches TaskScheduling::Submit(s) ==> s.task_type@ == task_type@ && s.input@ == input@
                && s.options.max_retries == match options.max_retries {
                Some(m) => m,
                None => 3,
            } && s.options.timeout == match options.timeout {
                Some(d) => d,
                None => secs_duration(300),
            } && s.options.queue
                == options.queue && s.options.priority_seconds == options.priority_seconds,
    {
        proof {
            self.lemma_kinds();
        }
        let ghost c = self@;
        let k = self.next_task_seq;
        self.next_task_seq = k.wrapping_add(1);
        let ki = k as usize;
        if ki < self.task_events.len() {
            let pos = self.task_events[ki];
            assert(kind_positions(c.events, EventKind::Task)[ki as int] == pos as int);
            let ev = &self.existing_events[pos];
            let expected = match ev.get_string("taskType") {
                Some(s) => s,
                None => String::new(),
            };
            if !str_eq(expected.as_str(), task_type) {
                return TaskScheduling::Done(
                    Err(
                        FlovynError::DeterminismViolation(
                            DeterminismViolationError::TaskTypeMismatch {
                                sequence: ki as i32,
                                expected,
                                actual: String::from_str(task_type),
                            },
                        ),
                    ),
                );
            }
            let id = match ev.get_string("taskExecutionId") {
                Some(s) => s,
                None => match ev.get_string("taskId") {
                    Some(s) => s,
                    None => {
                        return TaskScheduling::Done(
                            Err(
                                FlovynError::Other(
                                    String::from_str("TaskScheduled event missing taskExecutionId"),
                                ),
                            ),
                        );
                    },
                },
            };
            proof {
                lemma_latest_terminal(c.events, TerminalKind::Task, id@);
            }
            return match find_terminal(&self.existing_events, TerminalKind::Task, id.as_str()) {
                Some(j) => {
                    let t = &self.existing_events[j];
                    if t.event_type == EventType::TaskCompleted {
                        let out = match t.get("result") {
                            Some(v) => v,
                            None => match t.get("output") {
                                Some(v) => v,
                                None => String::from_str("null"),
                            },
                        };
                        TaskScheduling::Done(Ok(out))
                    } else {
                        let err = match t.get_string("error") {
                            Some(v) => v,
                            None => String::from_str("Task failed"),
                        };
                        TaskScheduling::Done(Err(FlovynError::TaskFailed(err)))
                    }
                },
                None => TaskScheduling::Done(
                    Err(
                        FlovynError::Suspended {
                            reason: String::from_str("Task is still running: ").concat(task_type),
                        },
                    ),
                ),
            };
        }
        if !self.task_submitter_configured {
            return TaskScheduling::Done(
                Err(
                    FlovynError::Other(
                        String::from_str("TaskSubmitter is not configured. Cannot schedule task '").concat(
                            task_type,
                        ).concat("'"),
                    ),
                ),
            );
        }
        TaskScheduling::Submit(
            TaskSubmission {
                task_type: String::from_str(task_type),
                input,
                options: TaskSubmitOptions::from_schedule_options(options),
            },
        )
    }

    /// Record a task that was submitted after
    /// [`Self::schedule_with_options_raw`] asked for it, under the execution
    /// ID the submitter assigned. The workflow then suspends until the task
    /// completes, so the answer is always the suspension.
    pub fn record_scheduled_task(
        &mut self,
        task_type: &str,
        input: String,
        priority_seconds: Option<i32>,
        task_execution_id: u128,
    ) -> (r: Result<String, FlovynError>)
        requires
            old(self).wf(),
        ensures
            final(self).wf(),
            (final(self)@, value_result(r)) == ({
                let (c, e) = record_task_step(
                    old(self)@,
                    task_type@,
                    input@,
                    priority_seconds,
                    task_execution_id,
                );
                (c, Err::<Seq<char>, FlovynErrorView>(e))
            }),
    {
        let ghost c = self@;
        let seq = self.next_sequence();
        self.commands.push(
            WorkflowCommand::ScheduleTask {
                sequence_number: seq,
                task_type: String::from_str(task_type),
                task_execution_id,
                input,
                priority_seconds,
            },
        );
        assert(self@ =~= record_task_step(c, task_type@, input@, priority_seconds, task_execution_id).0);
        Err(
            FlovynError::Suspended {
                reason: String::from_str("Task scheduled: ").concat(task_type),
            },
        )
    }
}

impl WorkflowContextImpl {
    /// The value (JSON text) of state key `key`.
    pub fn get_raw(&self, key: &str) -> (r: Result<Option<String>, FlovynError>)
        ensures
            match r {
                Ok(Some(v)) => kv_get(self@.state, key@) == Some(v@),
                Ok(None) => kv_get(self@.state, key@) is None,
                Err(_) => false,
            },
    {
        Ok(self.state.get(key))
    }

    /// Set state key `key` to `value` (JSON text). The n-th state change of
    /// the execution is matched against the n-th state event.
    pub fn set_raw(&mut self, key: &str, value: String) -> (r: Result<(), FlovynError>)
        requires
            old(self).wf(),
        ensures
            final(self).wf(),
            (final(self)@, unit_result(r)) == state_step(old(self)@, key@, value@, true),
    {
        self.change_state(key, value, true)
    }

    /// Clear state key `key`. The n-th state change of the execution is
    /// matched against the n-th state event.
    pub fn clear(&mut self, key: &str) -> (r: Result<(), FlovynError>)
        requires
            old(self).wf(),
        ensures
            final(self).wf(),
            (final(self)@, unit_result(r)) == state_step(old(self)@, key@, Seq::empty(), false),
    {
        self.change_state(key, String::new(), false)
    }

    fn change_state(&mut self, key: &str, value: String, set: bool) -> (r: Result<(), FlovynError>)
        requires
            old(self).wf(),
        ensures
            final(self).wf(),
            (final(self)@, unit_result(r)) == state_step(old(self)@, key@, value@, set),
    {
        proof {
            self.lemma_kinds();
        }
        let ghost c = self@;
        let k = self.next_state_seq;
        self.next_state_seq = k.wrapping_add(1);
        let ki = k as usize;
        let wanted = if set {
            EventType::StateSet
        } else {
            EventType::StateCleared
        };
        if ki < self.state_events.len() {
            let pos = self.state_events[ki];
            assert(kind_positions(c.events, EventKind::State)[ki as int] == pos as int);
            let ev = &self.existing_events[pos];
            if ev.event_type != wanted {
                return Err(
                    FlovynError::DeterminismViolation(
                        DeterminismViolationError::TypeMismatch {
                            sequence: ki as i32,
                            expected: wanted,
                            actual: ev.event_type,
                        },
                    ),
                );
            }
            let expected = match ev.get_string("key") {
                Some(s) => s,
                None => String::new(),
            };
            if !str_eq(expected.as_str(), key) {
                return Err(
                    FlovynError::DeterminismViolation(
                        DeterminismViolationError::StateKeyMismatch {
                            sequence: ki as i32,
                            expected,
                            actual: String::from_str(key),
                        },
                    ),
                );
            }
        } else {
            let seq = self.next_sequence();
            if set {
                self.commands.push(
                    WorkflowCommand::SetState {
                        sequence_number: seq,
                        key: String::from_str(key),
                        value: value.clone(),
                    },
                );
            } else {
                self.commands.push(
                    WorkflowCommand::ClearState { sequence_number: seq, key: String::from_str(key) },
                );
            }
        }
        if set {
            self.state.insert(key, value);
        } else {
            self.state.remove(key);
        }
        assert(self@ =~= state_step(c, key@, value@, set).0);
        Ok(())
    }

    /// Clear every state key, in the order the keys were first set, stopping
    /// at the first error.
    pub fn clear_all(&mut self) -> (r: Result<(), FlovynError>)
        requires
            old(self).wf(),
        ensures
            final(self).wf(),
            (final(self)@, unit_result(r)) == clear_keys_step(old(self)@, kv_keys(old(self)@.state)),
    {
        let keys = self.state.keys();
        let ghost ks = kv_keys(self@.state);
        let ghost c0 = self@;
        let mut i: usize = 0;
        assert(ks.skip(0) =~= ks);
        while i < keys.len()
            invariant
                self.wf(),
                c0 == old(self)@,
                ks == kv_keys(c0.state),
                i <= keys@.len(),
                keys@.map_values(|s: String| s@) == ks,
                clear_keys_step(c0, ks) == clear_keys_step(self@, ks.skip(i as int)),
            decreases keys@.len() - i,
        {
            let ghost prev = self@;
            let ghost rest = ks.skip(i as int);
            assert(rest[0] == keys@[i as int]@);
            assert(rest.drop_first() =~= ks.skip(i + 1));
            let r = self.clear(keys[i].as_str());
            assert(clear_keys_step(prev, rest) == if unit_result(r) is Err {
                (self@, unit_result(r))
            } else {
                clear_keys_step(self@, ks.skip(i + 1))
            });
            match r {
                Err(e) => {
                    return Err(e);
                },
                Ok(()) => {},
            }
            i = i + 1;
        }
        assert(ks.skip(i as int) =~= Seq::<Seq<char>>::empty());
        Ok(())
    }

    /// The state keys, in the order they were first set.
    pub fn state_keys(&self) -> (r: Result<Vec<String>, FlovynError>)
        ensures
            match r {
                Ok(v) => v@.map_values(|s: String| s@) == kv_keys(self@.state),
                Err(_) => false,
            },
    {
        Ok(self.state.keys())
    }
}

/// `secs` seconds and `subsec_nanos` nanoseconds in whole milliseconds, as
/// the `i64` a command carries (the low 64 bits, as an `as` cast keeps them).
pub fn duration_millis(secs: u64, subsec_nanos: u32) -> (r: i64)
    requires
        subsec_nanos < 1_000_000_000,
    ensures
        r == (secs * 1000 + subsec_nanos / 1_000_000) as i64,
{
    let ms: u128 = (secs as u128) * 1000 + (subsec_nanos / 1_000_000) as u128;
    ms as i64
}

/// The timeout a promise command carries: none for the longest duration
/// (`u64::MAX` seconds), which stands for waiting without limit.
pub fn promise_timeout_millis(secs: u64, subsec_nanos: u32) -> (r: Option<i64>)
    requires
        subsec_nanos < 1_000_000_000,
    ensures
        r == if secs == u64::MAX {
            None
        } else {
            Some((secs * 1000 + subsec_nanos / 1_000_000) as i64)
        },
{
    if secs == u64::MAX {
        None
    } else {
        Some(duration_millis(secs, subsec_nanos))
    }
}

impl WorkflowContextImpl {
    /// Sleep for `duration_ms` milliseconds. The n-th sleep of the execution
    /// uses the timer ID `sleep-<n>` and is matched against the n-th
    /// `TimerStarted` event.
    pub fn sleep(&mut self, duration_ms: i64) -> (r: Result<(), FlovynError>)
        requires
            old(self).wf(),
            old(self)@.sleep_call_counter < i32::MAX,
        ensures
            final(self).wf(),
            (final(self)@, unit_result(r)) == sleep_step(old(self)@, duration_ms),
    {
        proof {
            self.lemma_kinds();
        }
        let ghost c = self@;
        let k = self.next_timer_seq;
        self.next_timer_seq = k.wrapping_add(1);
        let ki = k as usize;
        let n = self.sleep_call_counter + 1;
        self.sleep_call_counter = n;
        let timer_id = String::from_str("sleep-").concat(i64_to_decimal(n as i64).as_str());
        assert(timer_id@ =~= sleep_timer_id(n));
        if ki < self.timer_events.len() {
            let pos = self.timer_events[ki];
            assert(kind_positions(c.events, EventKind::Timer)[ki as int] == pos as int);
            let ev = &self.existing_events[pos];
            let expected = match ev.get_string("timerId") {
                Some(s) => s,
                None => String::new(),
            };
            if !str_eq(expected.as_str(), timer_id.as_str()) {
                return Err(
                    FlovynError::DeterminismViolation(
                        DeterminismViolationError::TimerIdMismatch {
                            sequence: ki as i32,
                            expected,
                            actual: timer_id,
                        },
                    ),
                );
            }
            proof {
                lemma_latest_terminal(c.events, TerminalKind::Timer, expected@);
            }
            return match find_terminal(&self.existing_events, TerminalKind::Timer, expected.as_str()) {
                Some(j) => {
                    if self.existing_events[j].event_type == EventType::TimerFired {
                        Ok(())
                    } else {
                        Err(
                            FlovynError::TimerError(
                                String::from_str("Timer '").concat(expected.as_str()).concat(
                                    "' was cancelled",
                                ),
                            ),
                        )
                    }
                },
                None => Err(
                    FlovynError::Suspended {
                        reason: String::from_str("Waiting for timer: ").concat(expected.as_str()),
                    },
                ),
            };
        }
        let seq = self.next_sequence();
        self.commands.push(
            WorkflowCommand::StartTimer {
                sequence_number: seq,
                timer_id: timer_id.clone(),
                duration_ms,
            },
        );
        assert(self@ =~= sleep_step(c, duration_ms).0);
        Err(
            FlovynError::Suspended {
                reason: String::from_str("Waiting for timer: ").concat(timer_id.as_str()),
            },
        )
    }

    /// Await the promise `name` without a timeout.
    pub fn promise_raw(&mut self, name: &str) -> (r: Result<String, FlovynError>)
        requires
            old(self).wf(),
        ensures
            final(self).wf(),
            (final(self)@, value_result(r)) == promise_step(old(self)@, name@, None),
    {
        self.promise_with_timeout_raw(name, None)
    }

    /// Await the promise `name`; a new promise is created with `timeout_ms`.
    /// The n-th promise of the execution is matched against the n-th
    /// `PromiseCreated` event.
    pub fn promise_with_timeout_raw(&mut self, name: &str, timeout_ms: Option<i64>) -> (r: Result<
        String,
        FlovynError,
    >)
        requires
            old(self).wf(),
        ensures
            final(self).wf(),
            (final(self)@, value_result(r)) == promise_step(old(self)@, name@, timeout_ms),
    {
        proof {
            self.lemma_kinds();
        }
        let ghost c = self@;
        let k = self.next_promise_seq;
        self.next_promise_seq = k.wrapping_add(1);
        let ki = k as usize;
        if ki < self.promise_events.len() {
            let pos = self.promise_events[ki];
            assert(kind_positions(c.events, EventKind::Promise)[ki as int] == pos as int);
            let ev = &self.existing_events[pos];
            let expected = match ev.get_string("promiseId") {
                Some(s) => s,
                None => match ev.get_string("promiseName") {
                    Some(s) => s,
                    None => String::new(),
                },
            };
            if !str_eq(expected.as_str(), name) {
                return Err(
                    FlovynError::DeterminismViolation(
                        DeterminismViolationError::PromiseNameMismatch {
                            sequence: ki as i32,
                            expected,
                            actual: String::from_str(name),
                        },
                    ),
                );
            }
            proof {
                lemma_latest_terminal(c.events, TerminalKind::Promise, expected@);
            }
            return match find_terminal(&self.existing_events, TerminalKind::Promise, expected.as_str()) {
                Some(j) => {
                    let t = &self.existing_events[j];
                    if t.event_type == EventType::PromiseResolved {
                        match t.get("value") {
                            Some(v) => Ok(v),
                            None => Ok(String::from_str("null")),
                        }
                    } else if t.event_type == EventType::PromiseRejected {
                        let err = match t.get_string("error") {
                            Some(v) => v,
                            None => String::from_str("Promise rejected"),
                        };
                        Err(FlovynError::PromiseRejected { name: String::from_str(name), error: err })
                    } else {
                        Err(FlovynError::PromiseTimeout { name: String::from_str(name) })
                    }
                },
                None => Err(
                    FlovynError::Suspended {
                        reason: String::from_str("Waiting for promise: ").concat(name),
                    },
                ),
            };
        }
        let seq = self.next_sequence();
        self.commands.push(
            WorkflowCommand::CreatePromise {
                sequence_number: seq,
                promise_id: String::from_str(name),
                timeout_ms,
            },
        );
        assert(commands_view(self.commands@) =~= c.commands.push(
            CommandView::CreatePromise {
                sequence_number: c.sequence_number,
                promise_id: name@,
                timeout_ms,
            },
        ));
        match self.pending_promises.get(name) {
            Some(v) => Ok(v),
            None => Err(
                FlovynError::Suspended {
                    reason: String::from_str("Waiting for promise: ").concat(name),
                },
            ),
        }
    }

    /// Schedule the child workflow `name` of kind `kind` with `input` (JSON
    /// text). The n-th child workflow of the execution is matched against the
    /// n-th `ChildWorkflowInitiated` event.
    pub fn schedule_workflow_raw(&mut self, name: &str, kind: &str, input: String) -> (r: Result<
        String,
        FlovynError,
    >)
        requires
            old(self).wf(),
        ensures
            final(self).wf(),
            (final(self)@, value_result(r)) == child_workflow_step(old(self)@, name@, kind@, input@),
    {
        proof {
            self.lemma_kinds();
        }
        let ghost c = self@;
        let k = self.next_child_workflow_seq;
        self.next_child_workflow_seq = k.wrapping_add(1);
        let ki = k as usize;
        if ki < self.child_workflow_events.len() {
            let pos = self.child_workflow_events[ki];
            assert(kind_positions(c.events, EventKind::ChildWorkflow)[ki as int] == pos as int);
            let ev = &self.existing_events[pos];
            let expected = match ev.get_string("childExecutionName") {
                Some(s) => s,
                None => String::new(),
            };
            if !str_eq(expected.as_str(), name) {
                return Err(
                    FlovynError::DeterminismViolation(
                        DeterminismViolationError::ChildWorkflowMismatch {
                            sequence: ki as i32,
                            field: String::from_str("name"),
                            expected,
                            actual: String::from_str(name),
                        },
                    ),
                );
            }
            let expected_kind = match ev.get_string("childWorkflowKind") {
                Some(s) => s,
                None => String::new(),
            };
            if !expected_kind.as_str().is_empty() && !str_eq(expected_kind.as_str(), kind) {
                return Err(
                    FlovynError::DeterminismViolation(
                        DeterminismViolationError::ChildWorkflowMismatch {
                            sequence: ki as i32,
                            field: String::from_str("kind"),
                            expected: expected_kind,
                            actual: String::from_str(kind),
                        },
                    ),
                );
            }
            proof {
                lemma_latest_terminal(c.events, TerminalKind::ChildWorkflow, expected@);
            }
            return match find_terminal(
                &self.existing_events,
                TerminalKind::ChildWorkflow,
                expected.as_str(),
            ) {
                Some(j) => {
                    let t = &self.existing_events[j];
                    if t.event_type == EventType::ChildWorkflowCompleted {
                        match t.get("output") {
                            Some(v) => Ok(v),
                            None => Ok(String::from_str("null")),
                        }
                    } else {
                        let err = match t.get_string("error") {
                            Some(v) => v,
                            None => String::from_str("Child workflow failed"),
                        };
                        let execution_id = match t.get_string("childworkflowExecutionId") {
                            Some(v) => v,
                            None => String::from_str("unknown"),
                        };
                        Err(
                            FlovynError::ChildWorkflowFailed {
                                execution_id,
                                name: String::from_str(name),
                                error: err,
                            },
                        )
                    }
                },
                None => Err(
                    FlovynError::Suspended {
                        reason: String::from_str("Waiting for child workflow: ").concat(name),
                    },
                ),
            };
        }
        let seq = self.next_sequence();
        let child_execution_id = self.random_uuid();
        self.commands.push(
            WorkflowCommand::ScheduleChildWorkflow {
                sequence_number: seq,
                name: String::from_str(name),
                kind: Some(String::from_str(kind)),
                definition_id: None,
                child_execution_id,
                input,
                task_queue: String::new(),
                priority_seconds: 0,
            },
        );
        assert(self@ =~= child_workflow_step(c, name@, kind@, input@).0);
        match self.pending_child_workflows.get(name) {
            Some(v) => Ok(v),
            None => Err(
                FlovynError::Suspended {
                    reason: String::from_str("Waiting for child workflow: ").concat(name),
                },
            ),
        }
    }
}

impl WorkflowContextImpl {
    /// The UUID that a recorded ID spells; nil when it is absent or spells
    /// none.
    fn recorded_uuid_of(text: Option<String>) -> (r: u128)
        ensures
            r == recorded_uuid(
                match text {
                    Some(s) => Some(s@),
                    None => None,
                },
            ),
    {
        match text {
            Some(s) => match uuid_parse(s.as_str()) {
                Some(u) => u,
                None => 0,
            },
            None => 0,
        }
    }

    /// Start a task with default options and return its future at once; see
    /// [`Self::schedule_async_with_options_raw`].
    pub fn schedule_async_raw(&mut self, task_type: &str, input: String) -> (r: AsyncStart<
        u128,
        String,
    >)
        requires
            old(self).wf(),
        ensures
            final(self).wf(),
            (final(self)@, id_value_view(r)) == task_async_step(old(self)@, task_type@, input@, None),
    {
        self.schedule_async_with_options_raw(task_type, input, ScheduleTaskOptions::default())
    }

    /// Start a task and return its future at once, so that several tasks can
    /// run in parallel. The n-th task of the execution is matched against the
    /// n-th `TaskScheduled` event; a new one is recorded with a deterministic
    /// execution ID and its priority.
    pub fn schedule_async_with_options_raw(
        &mut self,
        task_type: &str,
        input: String,
        options: ScheduleTaskOptions,
    ) -> (r: AsyncStart<u128, String>)
        requires
            old(self).wf(),
        ensures
            final(self).wf(),
            (final(self)@, id_value_view(r)) == task_async_step(
                old(self)@,
                task_type@,
                input@,
                options.priority_seconds,
            ),
    {
        proof {
            self.lemma_kinds();
        }
        let ghost c = self@;
        let k = self.next_task_seq;
        self.next_task_seq = k.wrapping_add(1);
        let ki = k as usize;
        if ki < self.task_events.len() {
            let pos = self.task_events[ki];
            assert(kind_positions(c.events, EventKind::Task)[ki as int] == pos as int);
            let ev = &self.existing_events[pos];
            let expected = match ev.get_string("taskType") {
                Some(s) => s,
                None => String::new(),
            };
            if !str_eq(expected.as_str(), task_type) {
                return AsyncStart::Failed {
                    seq: k,
                    error: FlovynError::DeterminismViolation(
                        DeterminismViolationError::TaskTypeMismatch {
                            sequence: ki as i32,
                            expected,
                            actual: String::from_str(task_type),
                        },
                    ),
                };
            }
            let recorded = match ev.get_string("taskExecutionId") {
                Some(s) => Some(s),
                None => ev.get_string("taskId"),
            };
            let id = Self::recorded_uuid_of(recorded);
            let id_text = uuid_to_text(id);
            proof {
                lemma_latest_terminal(c.events, TerminalKind::Task, id_text@);
            }
            return match find_terminal(&self.existing_events, TerminalKind::Task, id_text.as_str()) {
                Some(j) => {
                    let t = &self.existing_events[j];
                    if t.event_type == EventType::TaskCompleted {
                        let out = match t.get("result") {
                            Some(v) => v,
                            None => match t.get("output") {
                                Some(v) => v,
                                None => String::from_str("null"),
                            },
                        };
                        AsyncStart::Replayed { seq: k, id, result: Ok(out) }
                    } else {
                        let err = match t.get_string("error") {
                            Some(v) => v,
                            None => String::from_str("Task failed"),
                        };
                        AsyncStart::Replayed { seq: k, id, result: Err(FlovynError::TaskFailed(err)) }
                    }
                },
                None => AsyncStart::Pending { seq: k, id },
            };
        }
        let id = self.random_uuid();
        let seq = self.next_sequence();
        self.commands.push(
            WorkflowCommand::ScheduleTask {
                sequence_number: seq,
                task_type: String::from_str(task_type),
                task_execution_id: id,
                input,
                priority_seconds: options.priority_seconds,
            },
        );
        assert(self@ =~= task_async_step(c, task_type@, input@, options.priority_seconds).0);
        AsyncStart::Pending { seq: k, id }
    }

    /// Start a timer of `duration_ms` milliseconds and return its future at
    /// once. The n-th sleep uses the timer ID `sleep-<n>` and is matched
    /// against the n-th `TimerStarted` event; the future settles with whether
    /// the timer fired.
    pub fn sleep_async(&mut self, duration_ms: i64) -> (r: AsyncStart<String, bool>)
        requires
            old(self).wf(),
            old(self)@.sleep_call_counter < i32::MAX,
        ensures
            final(self).wf(),
            (final(self)@, timer_view(r)) == timer_async_step(old(self)@, duration_ms),
    {
        proof {
            self.lemma_kinds();
        }
        let ghost c = self@;
        let k = self.next_timer_seq;
        self.next_timer_seq = k.wrapping_add(1);
        let ki = k as usize;
        let n = self.sleep_call_counter + 1;
        self.sleep_call_counter = n;
        let timer_id = String::from_str("sleep-").concat(i64_to_decimal(n as i64).as_str());
        assert(timer_id@ =~= sleep_timer_id(n));
        if ki < self.timer_events.len() {
            let pos = self.timer_events[ki];
            assert(kind_positions(c.events, EventKind::Timer)[ki as int] == pos as int);
            let ev = &self.existing_events[pos];
            let expected = match ev.get_string("timerId") {
                Some(s) => s,
                None => String::new(),
            };
            if !str_eq(expected.as_str(), timer_id.as_str()) {
                return AsyncStart::Failed {
                    seq: k,
                    error: FlovynError::DeterminismViolation(
                        DeterminismViolationError::TimerIdMismatch {
                            sequence: ki as i32,
                            expected,
                            actual: timer_id,
                        },
                    ),
                };
            }
            proof {
                lemma_latest_terminal(c.events, TerminalKind::Timer, expected@);
            }
            return match find_terminal(&self.existing_events, TerminalKind::Timer, expected.as_str()) {
                Some(j) => {
                    let fired = self.existing_events[j].event_type == EventType::TimerFired;
                    AsyncStart::Replayed { seq: k, id: expected, result: Ok(fired) }
                },
                None => AsyncStart::Pending { seq: k, id: expected },
            };
        }
        let seq = self.next_sequence();
        self.commands.push(
            WorkflowCommand::StartTimer {
                sequence_number: seq,
                timer_id: timer_id.clone(),
                duration_ms,
            },
        );
        assert(self@ =~= timer_async_step(c, duration_ms).0);
        AsyncStart::Pending { seq: k, id: timer_id }
    }

    /// Start awaiting the promise `name` and return its future at once. The
    /// n-th promise is matched against the n-th `PromiseCreated` event; a new
    /// one is recorded without a timeout.
    pub fn promise_async_raw(&mut self, name: &str) -> (r: AsyncStart<String, String>)
        requires
            old(self).wf(),
        ensures
            final(self).wf(),
            (final(self)@, name_value_view(r)) == promise_async_step(old(self)@, name@),
    {
        proof {
            self.lemma_kinds();
        }
        let ghost c = self@;
        let k = self.next_promise_seq;
        self.next_promise_seq = k.wrapping_add(1);
        let ki = k as usize;
        if ki < self.promise_events.len() {
            let pos = self.promise_events[ki];
            assert(kind_positions(c.events, EventKind::Promise)[ki as int] == pos as int);
            let ev = &self.existing_events[pos];
            let expected = match ev.get_string("promiseId") {
                Some(s) => s,
                None => match ev.get_string("promiseName") {
                    Some(s) => s,
                    None => String::new(),
                },
            };
            if !str_eq(expected.as_str(), name) {
                return AsyncStart::Failed {
                    seq: k,
                    error: FlovynError::DeterminismViolation(
                        DeterminismViolationError::PromiseNameMismatch {
                            sequence: ki as i32,
                            expected,
                            actual: String::from_str(name),
                        },
                    ),
                };
            }
            proof {
                lemma_latest_terminal(c.events, TerminalKind::Promise, expected@);
            }
            return match find_terminal(&self.existing_events, TerminalKind::Promise, expected.as_str()) {
                Some(j) => {
                    let t = &self.existing_events[j];
                    let result = if t.event_type == EventType::PromiseResolved {
                        match t.get("value") {
                            Some(v) => Ok(v),
                            None => Ok(String::from_str("null")),
                        }
                    } else if t.event_type == EventType::PromiseRejected {
                        let err = match t.get_string("error") {
                            Some(v) => v,
                            None => String::from_str("Promise rejected"),
                        };
                        Err(FlovynError::PromiseRejected { name: String::from_str(name), error: err })
                    } else {
                        Err(FlovynError::PromiseTimeout { name: String::from_str(name) })
                    };
                    AsyncStart::Replayed { seq: k, id: expected, result }
                },
                None => AsyncStart::Pending { seq: k, id: expected },
            };
        }
        let seq = self.next_sequence();
        self.commands.push(
            WorkflowCommand::CreatePromise {
                sequence_number: seq,
                promise_id: String::from_str(name),
                timeout_ms: None,
            },
        );
        assert(self@ =~= promise_async_step(c, name@).0);
        AsyncStart::Pending { seq: k, id: String::from_str(name) }
    }

    /// Start the child workflow `name` of kind `kind` with `input` (JSON
    /// text) and return its future at once. The n-th child workflow is
    /// matched against the n-th `ChildWorkflowInitiated` event; a new one is
    /// recorded under a deterministic execution ID.
    pub fn schedule_workflow_async_raw(&mut self, name: &str, kind: &str, input: String) -> (r:
        AsyncStart<u128, String>)
        requires
            old(self).wf(),
        ensures
            final(self).wf(),
            (final(self)@, id_value_view(r)) == child_workflow_async_step(
                old(self)@,
                name@,
                kind@,
                input@,
            ),
    {
        proof {
            self.lemma_kinds();
        }
        let ghost c = self@;
        let k = self.next_child_workflow_seq;
        self.next_child_workflow_seq = k.wrapping_add(1);
        let ki = k as usize;
        if ki < self.child_workflow_events.len() {
            let pos = self.child_workflow_events[ki];
            assert(kind_positions(c.events, EventKind::ChildWorkflow)[ki as int] == pos as int);
            let ev = &self.existing_events[pos];
            let expected = match ev.get_string("childExecutionName") {
                Some(s) => s,
                None => String::new(),
            };
            if !str_eq(expected.as_str(), name) {
                return AsyncStart::Failed {
                    seq: k,
                    error: FlovynError::DeterminismViolation(
                        DeterminismViolationError::ChildWorkflowMismatch {
                            sequence: ki as i32,
                            field: String::from_str("name"),
                            expected,
                            actual: String::from_str(name),
                        },
                    ),
                };
            }
            let expected_kind = match ev.get_string("childWorkflowKind") {
                Some(s) => s,
                None => String::new(),
            };
            if !expected_kind.as_str().is_empty() && !str_eq(expected_kind.as_str(), kind) {
                return AsyncStart::Failed {
                    seq: k,
                    error: FlovynError::DeterminismViolation(
                        DeterminismViolationError::ChildWorkflowMismatch {
                            sequence: ki as i32,
                            field: String::from_str("kind"),
                            expected: expected_kind,
                            actual: String::from_str(kind),
                        },
                    ),
                };
            }
            let id = Self::recorded_uuid_of(ev.get_string("childExecutionId"));
            proof {
                lemma_latest_terminal(c.events, TerminalKind::ChildWorkflow, expected@);
            }
            return match find_terminal(
                &self.existing_events,
                TerminalKind::ChildWorkflow,
                expected.as_str(),
            ) {
                Some(j) => {
                    let t = &self.existing_events[j];
                    let result = if t.event_type == EventType::ChildWorkflowCompleted {
                        match t.get("output") {
                            Some(v) => Ok(v),
                            None => Ok(String::from_str("null")),
                        }
                    } else {
                        let err = match t.get_string("error") {
                            Some(v) => v,
                            None => String::from_str("Child workflow failed"),
                        };
                        let execution_id = match t.get_string("childworkflowExecutionId") {
                            Some(v) => v,
                            None => String::from_str("unknown"),
                        };
                        Err(
                            FlovynError::ChildWorkflowFailed {
                                execution_id,
                                name: String::from_str(name),
                                error: err,
                            },
                        )
                    };
                    AsyncStart::Replayed { seq: k, id, result }
                },
                None => AsyncStart::Pending { seq: k, id },
            };
        }
        let id = self.random_uuid();
        let seq = self.next_sequence();
        self.commands.push(
            WorkflowCommand::ScheduleChildWorkflow {
                sequence_number: seq,
                name: String::from_str(name),
                kind: Some(String::from_str(kind)),
                definition_id: None,
                child_execution_id: id,
                input,
                task_queue: String::new(),
                priority_seconds: 0,
            },
        );
        assert(self@ =~= child_workflow_async_step(c, name@, kind@, input@).0);
        AsyncStart::Pending { seq: k, id }
    }

    /// Run the operation `name` whose result (JSON text) is `result` and
    /// return its future, which is ready at once: on replay with the
    /// recorded result, otherwise with `result`, which is recorded.
    pub fn run_async_raw(&mut self, name: &str, result: String) -> (r: AsyncStart<String, String>)
        requires
            old(self).wf(),
        ensures
            final(self).wf(),
            (final(self)@, name_value_view(r)) == operation_async_step(old(self)@, name@, result@),
    {
        proof {
            self.lemma_kinds();
        }
        let ghost c = self@;
        let k = self.next_operation_seq;
        self.next_operation_seq = k.wrapping_add(1);
        let ki = k as usize;
        if ki < self.operation_events.len() {
            let pos = self.operation_events[ki];
            assert(kind_positions(c.events, EventKind::Operation)[ki as int] == pos as int);
            let ev = &self.existing_events[pos];
            let expected = match ev.get_string("operationName") {
                Some(s) => s,
                None => String::new(),
            };
            if !str_eq(expected.as_str(), name) {
                return AsyncStart::Failed {
                    seq: k,
                    error: FlovynError::DeterminismViolation(
                        DeterminismViolationError::OperationNameMismatch {
                            sequence: ki as i32,
                            expected,
                            actual: String::from_str(name),
                        },
                    ),
                };
            }
            let cached = match ev.get("result") {
                Some(s) => s,
                None => String::from_str("null"),
            };
            return AsyncStart::Replayed { seq: k, id: String::from_str(name), result: Ok(cached) };
        }
        let seq = self.next_sequence();
        self.commands.push(
            WorkflowCommand::RecordOperation {
                sequence_number: seq,
                operation_name: String::from_str(name),
                result: result.clone(),
            },
        );
        assert(self@ =~= operation_async_step(c, name@, result@).0);
        AsyncStart::Replayed { seq: k, id: String::from_str(name), result: Ok(result) }
    }
}

impl WorkflowContextImpl {
    /// The commands recorded so far.
    pub fn get_commands(&self) -> (r: Vec<WorkflowCommand>)
        ensures
            commands_view(r@) == self@.commands,
    {
        let mut out: Vec<WorkflowCommand> = Vec::new();
        let mut i: usize = 0;
        while i < self.commands.len()
            invariant
                i <= self.commands@.len(),
                out@.len() == i,
                forall|j: int| 0 <= j < i ==> (#[trigger] out@[j])@ == self.commands@[j]@,
            decreases self.commands@.len() - i,
        {
            out.push(self.commands[i].copy());
            i = i + 1;
        }
        assert(commands_view(out@) =~= commands_view(self.commands@));
        out
    }

    /// The commands recorded so far; the context keeps none of them.
    pub fn take_commands(&mut self) -> (r: Vec<WorkflowCommand>)
        requires
            old(self).wf(),
        ensures
            final(self).wf(),
            commands_view(r@) == old(self)@.commands,
            final(self)@ == (ContextView { commands: Seq::empty(), ..old(self)@ }),
    {
        let mut out: Vec<WorkflowCommand> = Vec::new();
        core::mem::swap(&mut out, &mut self.commands);
        assert(commands_view(self.commands@) =~= Seq::<CommandView>::empty());
        out
    }

    /// The spans recorded so far; the context keeps none of them.
    pub fn take_recorded_spans(&mut self) -> (r: Vec<ExecutionSpan>)
        requires
            old(self).wf(),
        ensures
            final(self).wf(),
            r@ == old(self).recorded_spans(),
            final(self)@ == (ContextView { span_count: 0, ..old(self)@ }),
    {
        let mut out: Vec<ExecutionSpan> = Vec::new();
        core::mem::swap(&mut out, &mut self.recorded_spans);
        out
    }

    /// Record the result (JSON text) of the task of type `task_type`, resolved
    /// in-process.
    pub fn resolve_task(&mut self, task_type: &str, result: String)
        requires
            old(self).wf(),
        ensures
            final(self).wf(),
            final(self)@ == (ContextView {
                pending_tasks: kv_insert(old(self)@.pending_tasks, task_type@, result@),
                ..old(self)@
            }),
    {
        self.pending_tasks.insert(task_type, result);
    }

    /// Record the value (JSON text) of the promise `name`, resolved
    /// in-process; awaiting it then answers with that value.
    pub fn resolve_promise(&mut self, name: &str, value: String)
        requires
            old(self).wf(),
        ensures
            final(self).wf(),
            final(self)@ == (ContextView {
                pending_promises: kv_insert(old(self)@.pending_promises, name@, value@),
                ..old(self)@
            }),
    {
        self.pending_promises.insert(name, value);
    }

    /// Mark the timer `timer_id` as fired in-process.
    pub fn fire_timer(&mut self, timer_id: &str)
        requires
            old(self).wf(),
        ensures
            final(self).wf(),
            final(self)@ == (ContextView {
                pending_timers: kv_remove(old(self)@.pending_timers, timer_id@),
                ..old(self)@
            }),
    {
        self.pending_timers.remove(timer_id);
    }

    /// Record the result (JSON text) of the child workflow `name`, resolved
    /// in-process; scheduling it then answers with that result.
    pub fn resolve_child_workflow(&mut self, name: &str, result: String)
        requires
            old(self).wf(),
        ensures
            final(self).wf(),
            final(self)@ == (ContextView {
                pending_child_workflows: kv_insert(old(self)@.pending_child_workflows, name@, result@),
                ..old(self)@
            }),
    {
        self.pending_child_workflows.insert(name, result);
    }
}

} // verus!
