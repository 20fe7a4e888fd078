//! Properties of workflow replay that hold of every context and every call.

use vstd::prelude::*;
use crate::common::kv::{kv_get, kv_unique, lemma_kv_insert, lemma_kv_remove};
use crate::error::FlovynErrorView;
use crate::client::task_execution::spec_uuid_parse;
use crate::common::ids::uuid_text;
use crate::workflow::async_ops::{
    AsyncView, child_workflow_async_step, operation_async_step, promise_async_step,
    recorded_uuid, task_async_step, timer_async_step,
};
use crate::workflow::event::EventType;
use crate::workflow::command::{CommandView, command_sequence};
use crate::workflow::context_impl::{
    ContextView, TaskSchedulingView, child_workflow_step, initial_context, uuid_step, xorshift, kind_count, kind_event,
    promise_step, record_task_step, run_step, schedule_step, sleep_step, sleep_timer_id,
    state_step, str_or,
};
use crate::workflow::event::{ReplayEventView, field_json, field_str};
use crate::workflow::replay::{
    EventKind, TerminalKind, is_terminal_for, latest_terminal, lemma_latest_terminal, or_else,
};

verus! {

/// Whether `after` is `before` with nothing recorded, or with exactly one
/// more command, which carries `before`'s sequence number, after which the
/// sequence number advances by one.
pub open spec fn stamps(before: ContextView, after: ContextView) -> bool {
    ||| after.commands == before.commands && after.sequence_number == before.sequence_number
    ||| {
        &&& after.commands.len() == before.commands.len() + 1
        &&& after.commands.drop_last() == before.commands
        &&& command_sequence(after.commands.last()) == before.sequence_number
        &&& after.sequence_number == before.sequence_number.wrapping_add(1)
    }
}

/// Whether a result is a determinism violation.
pub open spec fn is_violation<T>(r: Result<T, FlovynErrorView>) -> bool {
    r matches Err(FlovynErrorView::DeterminismViolation(_))
}

/// Every operation records at most one command, stamped with the current
/// sequence number, and the sequence number then advances by one; so the
/// commands of an execution carry consecutive sequence numbers.
pub proof fn law_commands_carry_consecutive_sequence_numbers(
    c: ContextView,
    name: Seq<char>,
    kind: Seq<char>,
    payload: Seq<char>,
    set: bool,
    duration_ms: i64,
    timeout_ms: Option<i64>,
    priority_seconds: Option<i32>,
    task_execution_id: u128,
)
    ensures
        stamps(c, run_step(c, name, payload).0),
        stamps(c, schedule_step(c, name).0),
        stamps(c, record_task_step(c, name, payload, priority_seconds, task_execution_id).0),
        stamps(c, state_step(c, name, payload, set).0),
        c.sleep_call_counter < i32::MAX ==> stamps(c, sleep_step(c, duration_ms).0),
        stamps(c, promise_step(c, name, timeout_ms).0),
        stamps(c, child_workflow_step(c, name, kind, payload).0),
{
    assert(c.commands.push(CommandView::ClearState { sequence_number: 0, key: name }).drop_last()
        =~= c.commands);
    let r = run_step(c, name, payload).0;
    if r.commands.len() == c.commands.len() + 1 {
        assert(r.commands.drop_last() =~= c.commands);
    }
    let r = record_task_step(c, name, payload, priority_seconds, task_execution_id).0;
    assert(r.commands.drop_last() =~= c.commands);
    let r = state_step(c, name, payload, set).0;
    if r.commands.len() == c.commands.len() + 1 {
        assert(r.commands.drop_last() =~= c.commands);
    }
    if c.sleep_call_counter < i32::MAX {
        let r = sleep_step(c, duration_ms).0;
        if r.commands.len() == c.commands.len() + 1 {
            assert(r.commands.drop_last() =~= c.commands);
        }
    }
    let r = promise_step(c, name, timeout_ms).0;
    if r.commands.len() == c.commands.len() + 1 {
        assert(r.commands.drop_last() =~= c.commands);
    }
    let r = child_workflow_step(c, name, kind, payload).0;
    if r.commands.len() == c.commands.len() + 1 {
        assert(r.commands.drop_last() =~= c.commands);
    }
}

/// Each kind of command consumes its own history sub-list: an operation
/// advances only its own kind's position, so interleaving kinds does not
/// shift how any other kind is replayed.
pub proof fn law_kinds_advance_independently(
    c: ContextView,
    name: Seq<char>,
    kind: Seq<char>,
    payload: Seq<char>,
    set: bool,
    timeout_ms: Option<i64>,
)
    ensures
        ({
            let r = run_step(c, name, payload).0;
            &&& r.next_operation_seq == c.next_operation_seq.wrapping_add(1)
            &&& r.next_task_seq == c.next_task_seq && r.next_timer_seq == c.next_timer_seq
            &&& r.next_promise_seq == c.next_promise_seq && r.next_state_seq == c.next_state_seq
            &&& r.next_child_workflow_seq == c.next_child_workflow_seq
        }),
        ({
            let r = schedule_step(c, name).0;
            &&& r.next_task_seq == c.next_task_seq.wrapping_add(1)
            &&& r.next_operation_seq == c.next_operation_seq && r.next_timer_seq == c.next_timer_seq
            &&& r.next_promise_seq == c.next_promise_seq && r.next_state_seq == c.next_state_seq
            &&& r.next_child_workflow_seq == c.next_child_workflow_seq
        }),
        ({
            let r = state_step(c, name, payload, set).0;
            &&& r.next_state_seq == c.next_state_seq.wrapping_add(1)
            &&& r.next_operation_seq == c.next_operation_seq && r.next_timer_seq == c.next_timer_seq
            &&& r.next_promise_seq == c.next_promise_seq && r.next_task_seq == c.next_task_seq
            &&& r.next_child_workflow_seq == c.next_child_workflow_seq
        }),
        ({
            let r = promise_step(c, name, timeout_ms).0;
            &&& r.next_promise_seq == c.next_promise_seq.wrapping_add(1)
            &&& r.next_operation_seq == c.next_operation_seq && r.next_timer_seq == c.next_timer_seq
            &&& r.next_task_seq == c.next_task_seq && r.next_state_seq == c.next_state_seq
            &&& r.next_child_workflow_seq == c.next_child_workflow_seq
        }),
        ({
            let r = child_workflow_step(c, name, kind, payload).0;
            &&& r.next_child_workflow_seq == c.next_child_workflow_seq.wrapping_add(1)
            &&& r.next_operation_seq == c.next_operation_seq && r.next_timer_seq == c.next_timer_seq
            &&& r.next_task_seq == c.next_task_seq && r.next_state_seq == c.next_state_seq
            &&& r.next_promise_seq == c.next_promise_seq
        }),
        c.sleep_call_counter < i32::MAX ==> ({
            let r = sleep_step(c, 0).0;
            &&& r.next_timer_seq == c.next_timer_seq.wrapping_add(1)
            &&& r.next_operation_seq == c.next_operation_seq && r.next_task_seq == c.next_task_seq
            &&& r.next_promise_seq == c.next_promise_seq && r.next_state_seq == c.next_state_seq
            &&& r.next_child_workflow_seq == c.next_child_workflow_seq
        }),
{
}

/// A new operation (one beyond the recorded history) is recorded with the
/// current sequence number and answered with its own result.
pub proof fn law_new_operation_is_recorded(c: ContextView, name: Seq<char>, result: Seq<char>)
    requires
        c.next_operation_seq >= kind_count(c, EventKind::Operation),
    ensures
        run_step(c, name, result).1 == Ok::<Seq<char>, FlovynErrorView>(result),
        run_step(c, name, result).0.commands == c.commands.push(
            CommandView::RecordOperation {
                sequence_number: c.sequence_number,
                operation_name: name,
                result,
            },
        ),
{
}

/// Replaying an operation gives back the result recorded in the history,
/// whatever result the workflow passes this time, and records nothing.
pub proof fn law_replayed_operation_returns_recorded_result(
    c: ContextView,
    name: Seq<char>,
    result: Seq<char>,
    recorded: Seq<char>,
)
    requires
        c.next_operation_seq < kind_count(c, EventKind::Operation),
        field_str(kind_event(c, EventKind::Operation, c.next_operation_seq as int), "operationName"@)
            == Some(name),
        field_json(kind_event(c, EventKind::Operation, c.next_operation_seq as int), "result"@)
            == Some(recorded),
    ensures
        run_step(c, name, result).1 == Ok::<Seq<char>, FlovynErrorView>(recorded),
        run_step(c, name, result).0.commands == c.commands,
        run_step(c, name, result).0.sequence_number == c.sequence_number,
{
}

/// A replayed call is a determinism violation exactly when the recorded
/// event at its position names something else.
pub proof fn law_violation_iff_mismatch(
    c: ContextView,
    name: Seq<char>,
    kind: Seq<char>,
    payload: Seq<char>,
    timeout_ms: Option<i64>,
)
    ensures
        is_violation(run_step(c, name, payload).1) <==> (c.next_operation_seq < kind_count(
            c,
            EventKind::Operation,
        ) && str_or(
            field_str(
                kind_event(c, EventKind::Operation, c.next_operation_seq as int),
                "operationName"@,
            ),
            Seq::empty(),
        ) != name),
        (schedule_step(c, name).1 matches TaskSchedulingView::Done(r) && is_violation(r)) <==> (
        c.next_task_seq < kind_count(c, EventKind::Task) && str_or(
            field_str(kind_event(c, EventKind::Task, c.next_task_seq as int), "taskType"@),
            Seq::empty(),
        ) != name),
        is_violation(promise_step(c, name, timeout_ms).1) <==> (c.next_promise_seq < kind_count(
            c,
            EventKind::Promise,
        ) && str_or(
            or_else(
                field_str(kind_event(c, EventKind::Promise, c.next_promise_seq as int), "promiseId"@),
                field_str(
                    kind_event(c, EventKind::Promise, c.next_promise_seq as int),
                    "promiseName"@,
                ),
            ),
            Seq::empty(),
        ) != name),
        c.sleep_call_counter < i32::MAX ==> (is_violation(sleep_step(c, 0).1) <==> (
        c.next_timer_seq < kind_count(c, EventKind::Timer) && str_or(
            field_str(kind_event(c, EventKind::Timer, c.next_timer_seq as int), "timerId"@),
            Seq::empty(),
        ) != sleep_timer_id((c.sleep_call_counter + 1) as i32))),
{
}

/// After a state key is set, reading it gives the value set; other keys keep
/// their values.
pub proof fn law_state_read_after_set(
    c: ContextView,
    key: Seq<char>,
    value: Seq<char>,
    other: Seq<char>,
)
    requires
        kv_unique(c.state),
        state_step(c, key, value, true).1 is Ok,
    ensures
        kv_get(state_step(c, key, value, true).0.state, key) == Some(value),
        other != key ==> kv_get(state_step(c, key, value, true).0.state, other) == kv_get(
            c.state,
            other,
        ),
{
    lemma_kv_insert(c.state, key, value, other);
}

/// After a state key is cleared, reading it gives nothing; other keys keep
/// their values.
pub proof fn law_state_read_after_clear(c: ContextView, key: Seq<char>, other: Seq<char>)
    requires
        kv_unique(c.state),
        state_step(c, key, Seq::empty(), false).1 is Ok,
    ensures
        kv_get(state_step(c, key, Seq::empty(), false).0.state, key) is None,
        other != key ==> kv_get(state_step(c, key, Seq::empty(), false).0.state, other) == kv_get(
            c.state,
            other,
        ),
{
    lemma_kv_remove(c.state, key, other);
}

/// The n-th sleep of an execution uses the timer ID `sleep-<n>`, whether it
/// is new or replayed, so timer IDs agree across replays.
pub proof fn law_sleep_timer_ids(c: ContextView, duration_ms: i64)
    requires
        c.sleep_call_counter < i32::MAX,
    ensures
        sleep_step(c, duration_ms).0.sleep_call_counter == c.sleep_call_counter + 1,
        c.next_timer_seq >= kind_count(c, EventKind::Timer) ==> sleep_step(c, duration_ms).0.commands
            == c.commands.push(
            CommandView::StartTimer {
                sequence_number: c.sequence_number,
                timer_id: sleep_timer_id((c.sleep_call_counter + 1) as i32),
                duration_ms,
            },
        ),
{
}

/// Of several terminal events for one task, timer, promise or child workflow
/// (a retried task, for one), the one with the greatest sequence number
/// decides.
pub proof fn law_latest_terminal_event_decides(
    evs: Seq<ReplayEventView>,
    kind: TerminalKind,
    id: Seq<char>,
    i: int,
)
    requires
        0 <= i < evs.len(),
        is_terminal_for(evs[i], kind, id),
    ensures
        latest_terminal(evs, kind, id) matches Some(j) && is_terminal_for(evs[j], kind, id)
            && evs[i].sequence_number <= evs[j].sequence_number,
    decreases evs.len(),
{
    lemma_latest_terminal(evs, kind, id);
    let last = evs.len() - 1;
    if i < last {
        law_latest_terminal_event_decides(evs.drop_last(), kind, id, i);
        lemma_latest_terminal(evs.drop_last(), kind, id);
        assert(evs.drop_last()[i] == evs[i]);
        let j = latest_terminal(evs.drop_last(), kind, id)->0;
        assert(evs.drop_last()[j] == evs[j]);
    }
}

/// Running operations `names` with results `results`, one after another,
/// from `c`: the context after them and what each answered.
pub open spec fn run_ops(c: ContextView, names: Seq<Seq<char>>, results: Seq<Seq<char>>) -> (
    ContextView,
    Seq<Result<Seq<char>, FlovynErrorView>>,
)
    decreases names.len(),
{
    if names.len() == 0 || results.len() == 0 {
        (c, Seq::empty())
    } else {
        let (c1, r) = run_step(c, names[0], results[0]);
        let (c2, rs) = run_ops(c1, names.drop_first(), results.drop_first());
        (c2, seq![r] + rs)
    }
}

/// Each result, as a successful answer.
pub open spec fn all_ok(results: Seq<Seq<char>>) -> Seq<Result<Seq<char>, FlovynErrorView>> {
    results.map_values(|r: Seq<char>| Ok::<Seq<char>, FlovynErrorView>(r))
}

/// Whether the history event `e` records the operation `name` with
/// `result`.
pub open spec fn records_operation(e: ReplayEventView, name: Seq<char>, result: Seq<char>) -> bool {
    &&& field_str(e, "operationName"@) == Some(name)
    &&& field_json(e, "result"@) == Some(result)
}

/// On a first run, where no operation is in the history yet, every
/// operation answers its own result and is recorded, in order, under
/// consecutive sequence numbers.
pub proof fn law_first_run_records_operations(
    c: ContextView,
    names: Seq<Seq<char>>,
    results: Seq<Seq<char>>,
)
    requires
        names.len() == results.len(),
        c.next_operation_seq >= kind_count(c, EventKind::Operation),
        c.next_operation_seq + names.len() <= u32::MAX,
        c.sequence_number + names.len() <= i32::MAX,
    ensures
        run_ops(c, names, results).1 == all_ok(results),
        run_ops(c, names, results).0.commands == c.commands + Seq::new(
            names.len(),
            |i: int|
                CommandView::RecordOperation {
                    sequence_number: (c.sequence_number + i) as i32,
                    operation_name: names[i],
                    result: results[i],
                },
        ),
    decreases names.len(),
{
    if names.len() == 0 {
        assert(all_ok(results) =~= Seq::<Result<Seq<char>, FlovynErrorView>>::empty());
        assert(c.commands + Seq::new(
            0,
            |i: int|
                CommandView::RecordOperation {
                    sequence_number: (c.sequence_number + i) as i32,
                    operation_name: names[i],
                    result: results[i],
                },
        ) =~= c.commands);
    } else {
        let (c1, r) = run_step(c, names[0], results[0]);
        assert(kind_count(c1, EventKind::Operation) == kind_count(c, EventKind::Operation));
        law_first_run_records_operations(c1, names.drop_first(), results.drop_first());
        assert(all_ok(results) =~= seq![r] + all_ok(results.drop_first()));
        let tail = Seq::new(
            (names.len() - 1) as nat,
            |i: int|
                CommandView::RecordOperation {
                    sequence_number: (c1.sequence_number + i) as i32,
                    operation_name: names.drop_first()[i],
                    result: results.drop_first()[i],
                },
        );
        let whole = Seq::new(
            names.len(),
            |i: int|
                CommandView::RecordOperation {
                    sequence_number: (c.sequence_number + i) as i32,
                    operation_name: names[i],
                    result: results[i],
                },
        );
        assert(c1.commands + tail =~= c.commands + whole);
    }
}

/// On replay, where the history records each of the operations at the
/// positions they take, every operation answers the recorded result, whatever
/// result the workflow passes this time, and nothing is recorded.
pub proof fn law_replay_answers_recorded_operations(
    c: ContextView,
    names: Seq<Seq<char>>,
    recorded: Seq<Seq<char>>,
    results: Seq<Seq<char>>,
)
    requires
        names.len() == recorded.len(),
        names.len() == results.len(),
        c.next_operation_seq + names.len() <= u32::MAX,
        forall|i: int|
            0 <= i < names.len() ==> c.next_operation_seq + i < kind_count(c, EventKind::Operation)
                && records_operation(
                #[trigger] kind_event(c, EventKind::Operation, c.next_operation_seq + i),
                names[i],
                recorded[i],
            ),
    ensures
        run_ops(c, names, results).1 == all_ok(recorded),
        run_ops(c, names, results).0.commands == c.commands,
        run_ops(c, names, results).0.sequence_number == c.sequence_number,
    decreases names.len(),
{
    if names.len() == 0 {
        assert(all_ok(recorded) =~= Seq::<Result<Seq<char>, FlovynErrorView>>::empty());
    } else {
        assert(kind_event(c, EventKind::Operation, c.next_operation_seq + 0) == kind_event(
            c,
            EventKind::Operation,
            c.next_operation_seq as int,
        ));
        let (c1, r) = run_step(c, names[0], results[0]);
        assert forall|i: int| 0 <= i < names.len() - 1 implies c1.next_operation_seq + i
            < kind_count(c1, EventKind::Operation) && records_operation(
            #[trigger] kind_event(c1, EventKind::Operation, c1.next_operation_seq + i),
            names.drop_first()[i],
            recorded.drop_first()[i],
        ) by {
            assert(kind_event(c1, EventKind::Operation, c1.next_operation_seq + i) == kind_event(
                c,
                EventKind::Operation,
                c.next_operation_seq + (i + 1),
            ));
        }
        law_replay_answers_recorded_operations(
            c1,
            names.drop_first(),
            recorded.drop_first(),
            results.drop_first(),
        );
        assert(all_ok(recorded) =~= seq![r] + all_ok(recorded.drop_first()));
    }
}

/// Replay is deterministic: a replay whose history records what a first
/// run recorded answers every operation as the first run did, without
/// recording anything again.
pub proof fn law_replay_reproduces_first_run(
    first: ContextView,
    replay: ContextView,
    names: Seq<Seq<char>>,
    results: Seq<Seq<char>>,
    replay_results: Seq<Seq<char>>,
)
    requires
        names.len() == results.len(),
        names.len() == replay_results.len(),
        first.next_operation_seq >= kind_count(first, EventKind::Operation),
        first.next_operation_seq + names.len() <= u32::MAX,
        first.sequence_number + names.len() <= i32::MAX,
        replay.next_operation_seq + names.len() <= u32::MAX,
        forall|i: int|
            0 <= i < names.len() ==> replay.next_operation_seq + i < kind_count(
                replay,
                EventKind::Operation,
            ) && records_operation(
                #[trigger] kind_event(replay, EventKind::Operation, replay.next_operation_seq + i),
                names[i],
                results[i],
            ),
    ensures
        run_ops(replay, names, replay_results).1 == run_ops(first, names, results).1,
        run_ops(replay, names, replay_results).0.commands == replay.commands,
{
    law_first_run_records_operations(first, names, results);
    law_replay_answers_recorded_operations(replay, names, results, replay_results);
}

/// The UUIDs that `n` successive draws from `c` give, in order.
pub open spec fn uuid_draws(c: ContextView, n: nat) -> Seq<u128>
    decreases n,
{
    if n == 0 {
        Seq::empty()
    } else {
        seq![uuid_step(c).1] + uuid_draws(uuid_step(c).0, (n - 1) as nat)
    }
}

/// The raw random numbers that `n` successive draws from the generator
/// state `state` give, in order.
pub open spec fn random_draws(state: u64, n: nat) -> Seq<u64>
    decreases n,
{
    if n == 0 {
        Seq::empty()
    } else {
        seq![xorshift(state)] + random_draws(xorshift(state), (n - 1) as nat)
    }
}

proof fn lemma_uuid_draws_depend_on_id_and_counter(c1: ContextView, c2: ContextView, n: nat)
    requires
        c1.workflow_execution_id == c2.workflow_execution_id,
        c1.uuid_counter == c2.uuid_counter,
    ensures
        uuid_draws(c1, n) == uuid_draws(c2, n),
    decreases n,
{
    if n > 0 {
        lemma_uuid_draws_depend_on_id_and_counter(uuid_step(c1).0, uuid_step(c2).0, (n - 1) as nat);
    }
}

/// The deterministic values a workflow reads depend on its execution and
/// the task's time alone: a context built for the same execution ID and
/// time, whatever its history, input or settings (a first run and any later
/// replay), reads the same time and draws the same UUIDs and random numbers.
pub proof fn law_replay_draws_same_values(
    workflow_execution_id: u128,
    start_time_millis: i64,
    first_tenant: u128,
    first_input: Seq<char>,
    first_history: Seq<ReplayEventView>,
    first_submitter: bool,
    first_telemetry: bool,
    later_tenant: u128,
    later_input: Seq<char>,
    later_history: Seq<ReplayEventView>,
    later_submitter: bool,
    later_telemetry: bool,
    n: nat,
)
    ensures
        ({
            let first = initial_context(
                workflow_execution_id,
                first_tenant,
                first_input,
                first_history,
                start_time_millis,
                first_submitter,
                first_telemetry,
            );
            let later = initial_context(
                workflow_execution_id,
                later_tenant,
                later_input,
                later_history,
                start_time_millis,
                later_submitter,
                later_telemetry,
            );
            &&& first.current_time == later.current_time
            &&& uuid_draws(first, n) == uuid_draws(later, n)
            &&& random_draws(first.random, n) == random_draws(later.random, n)
        }),
{
    let first = initial_context(
        workflow_execution_id,
        first_tenant,
        first_input,
        first_history,
        start_time_millis,
        first_submitter,
        first_telemetry,
    );
    let later = initial_context(
        workflow_execution_id,
        later_tenant,
        later_input,
        later_history,
        start_time_millis,
        later_submitter,
        later_telemetry,
    );
    lemma_uuid_draws_depend_on_id_and_counter(first, later, n);
}

/// Starting a child workflow through a future replays it as the waiting form
/// does: the context that follows is the same, a mismatch is the same error,
/// a settled child gives the same result, and a child that the waiting form
/// would wait for is pending.
pub proof fn law_async_child_workflow_replays_alike(
    c: ContextView,
    name: Seq<char>,
    kind: Seq<char>,
    input: Seq<char>,
)
    requires
        (c.next_child_workflow_seq as int) < kind_count(c, EventKind::ChildWorkflow),
    ensures
        ({
            let (s, r) = child_workflow_step(c, name, kind, input);
            let (a, f) = child_workflow_async_step(c, name, kind, input);
            &&& a == s
            &&& match f {
                AsyncView::Failed { error: e, .. } => r == Err::<Seq<char>, FlovynErrorView>(e),
                AsyncView::Replayed { result, .. } => r == result,
                AsyncView::Pending { .. } => r == Err::<Seq<char>, FlovynErrorView>(
                    FlovynErrorView::Suspended { reason: "Waiting for child workflow: "@ + name },
                ),
            }
        }),
{
}

/// Starting a timer through a future replays it as sleeping does: the same
/// context follows, a mismatch is the same error, a fired timer settles the
/// future with `true` where sleeping goes on, and a timer that sleeping would
/// wait for is pending.
pub proof fn law_async_timer_replays_alike(c: ContextView, duration_ms: i64)
    requires
        (c.next_timer_seq as int) < kind_count(c, EventKind::Timer),
    ensures
        ({
            let (s, r) = sleep_step(c, duration_ms);
            let (a, f) = timer_async_step(c, duration_ms);
            &&& a == s
            &&& match f {
                AsyncView::Failed { error: e, .. } => r == Err::<(), FlovynErrorView>(e),
                AsyncView::Replayed { result, .. } => (result == Ok::<bool, FlovynErrorView>(true))
                    <==> (r is Ok),
                AsyncView::Pending { id, .. } => r == Err::<(), FlovynErrorView>(
                    FlovynErrorView::Suspended { reason: "Waiting for timer: "@ + id },
                ),
            }
        }),
{
}

/// An operation run through a future answers exactly what running it
/// directly answers, and leaves the same context but for the telemetry span
/// that only the direct form records.
pub proof fn law_async_operation_answers_alike(c: ContextView, name: Seq<char>, result: Seq<char>)
    ensures
        ({
            let (s, r) = run_step(c, name, result);
            let (a, f) = operation_async_step(c, name, result);
            &&& a == ContextView { span_count: c.span_count, ..s }
            &&& match f {
                AsyncView::Failed { error: e, .. } => r == Err::<Seq<char>, FlovynErrorView>(e),
                AsyncView::Replayed { result: fr, .. } => r == fr,
                AsyncView::Pending { .. } => false,
            }
        }),
{
}

/// Awaiting a promise that the history records, and whose latest terminal
/// event is the one at `j`, answers what that event says, in the waiting form
/// and in the future form alike: a value exactly when the promise was
/// resolved; a rejection as `PromiseRejected` and a timeout as
/// `PromiseTimeout`, each for that promise. Neither form waits.
pub proof fn law_replayed_promise_answers_its_terminal_event(
    c: ContextView,
    name: Seq<char>,
    timeout_ms: Option<i64>,
    j: int,
)
    requires
        (c.next_promise_seq as int) < kind_count(c, EventKind::Promise),
        or_else(
            field_str(kind_event(c, EventKind::Promise, c.next_promise_seq as int), "promiseId"@),
            field_str(kind_event(c, EventKind::Promise, c.next_promise_seq as int), "promiseName"@),
        ) == Some(name),
        latest_terminal(c.events, TerminalKind::Promise, name) == Some(j),
    ensures
        ({
            let r = promise_step(c, name, timeout_ms).1;
            &&& (r is Ok) <==> c.events[j].event_type == EventType::PromiseResolved
            &&& c.events[j].event_type == EventType::PromiseTimeout ==> r == Err::<
                Seq<char>,
                FlovynErrorView,
            >(FlovynErrorView::PromiseTimeout { name })
            &&& c.events[j].event_type == EventType::PromiseRejected ==> (r matches Err(
                FlovynErrorView::PromiseRejected { name: n, .. },
            ) && n == name)
        }),
        promise_async_step(c, name).1 matches AsyncView::Replayed { result, .. } && {
            &&& (result is Ok) <==> c.events[j].event_type == EventType::PromiseResolved
            &&& c.events[j].event_type == EventType::PromiseTimeout ==> result == Err::<
                Seq<char>,
                FlovynErrorView,
            >(FlovynErrorView::PromiseTimeout { name })
            &&& c.events[j].event_type == EventType::PromiseRejected ==> (result matches Err(
                FlovynErrorView::PromiseRejected { name: n, .. },
            ) && n == name)
        },
{
}

/// A recorded promise that nothing has settled yet makes the waiting form
/// suspend and leaves the future form pending; it never answers a value.
pub proof fn law_unsettled_promise_waits(c: ContextView, name: Seq<char>, timeout_ms: Option<i64>)
    requires
        (c.next_promise_seq as int) < kind_count(c, EventKind::Promise),
        or_else(
            field_str(kind_event(c, EventKind::Promise, c.next_promise_seq as int), "promiseId"@),
            field_str(kind_event(c, EventKind::Promise, c.next_promise_seq as int), "promiseName"@),
        ) == Some(name),
        latest_terminal(c.events, TerminalKind::Promise, name) is None,
    ensures
        promise_step(c, name, timeout_ms).1 matches Err(FlovynErrorView::Suspended { .. }),
        promise_async_step(c, name).1 is Pending,
{
}

/// A task that the history records under the execution ID `text`, of the
/// type asked for, is answered by its latest terminal event `j` in the
/// waiting form: its result exactly when it completed, and otherwise a
/// `TaskFailed` error; it is never submitted again.
pub proof fn law_replayed_task_answers_its_terminal_event(
    c: ContextView,
    task_type: Seq<char>,
    text: Seq<char>,
    j: int,
)
    requires
        (c.next_task_seq as int) < kind_count(c, EventKind::Task),
        field_str(kind_event(c, EventKind::Task, c.next_task_seq as int), "taskType"@) == Some(
            task_type,
        ),
        or_else(
            field_str(kind_event(c, EventKind::Task, c.next_task_seq as int), "taskExecutionId"@),
            field_str(kind_event(c, EventKind::Task, c.next_task_seq as int), "taskId"@),
        ) == Some(text),
        latest_terminal(c.events, TerminalKind::Task, text) == Some(j),
    ensures
        schedule_step(c, task_type).1 matches TaskSchedulingView::Done(r) && {
            &&& (r is Ok) <==> c.events[j].event_type == EventType::TaskCompleted
            &&& r is Err ==> r matches Err(FlovynErrorView::TaskFailed(_))
        },
{
}

/// A task future of a recorded task, of the type asked for, is settled by the
/// latest terminal event `j` recorded for its execution ID: with the task's
/// result exactly when it completed, and otherwise with a `TaskFailed`
/// error. It is pending only while no terminal event is recorded, and it
/// records nothing.
pub proof fn law_replayed_task_future_settles(
    c: ContextView,
    task_type: Seq<char>,
    input: Seq<char>,
    priority_seconds: Option<i32>,
)
    requires
        (c.next_task_seq as int) < kind_count(c, EventKind::Task),
        field_str(kind_event(c, EventKind::Task, c.next_task_seq as int), "taskType"@) == Some(
            task_type,
        ),
    ensures
        ({
            let e = kind_event(c, EventKind::Task, c.next_task_seq as int);
            let id = recorded_uuid(or_else(field_str(e, "taskExecutionId"@), field_str(e, "taskId"@)));
            let (after, f) = task_async_step(c, task_type, input, priority_seconds);
            &&& after.commands == c.commands
            &&& match latest_terminal(c.events, TerminalKind::Task, uuid_text(id)) {
                Some(j) => f matches AsyncView::Replayed { result, id: fid, .. } && fid == id && {
                    &&& (result is Ok) <==> c.events[j].event_type == EventType::TaskCompleted
                    &&& result is Err ==> result matches Err(FlovynErrorView::TaskFailed(_))
                },
                None => f == AsyncView::<u128, Seq<char>>::Pending { seq: c.next_task_seq, id },
            }
        }),
{
}

/// A task recorded under an execution ID that is UUID text is replayed by
/// the future form as by the waiting form: the same context follows, a
/// settled task settles the future with the same answer, and the future is
/// pending exactly when the waiting form suspends while the task runs.
pub proof fn law_async_task_replays_alike(
    c: ContextView,
    task_type: Seq<char>,
    input: Seq<char>,
    priority_seconds: Option<i32>,
    text: Seq<char>,
    u: u128,
)
    requires
        (c.next_task_seq as int) < kind_count(c, EventKind::Task),
        or_else(
            field_str(kind_event(c, EventKind::Task, c.next_task_seq as int), "taskExecutionId"@),
            field_str(kind_event(c, EventKind::Task, c.next_task_seq as int), "taskId"@),
        ) == Some(text),
        spec_uuid_parse(text) == Some(u),
        uuid_text(u) == text,
    ensures
        ({
            let (s, d) = schedule_step(c, task_type);
            let (a, f) = task_async_step(c, task_type, input, priority_seconds);
            &&& a == s
            &&& match f {
                AsyncView::Failed { error, .. } => d == TaskSchedulingView::Done(
                    Err::<Seq<char>, FlovynErrorView>(error),
                ),
                AsyncView::Replayed { result, .. } => d == TaskSchedulingView::Done(result),
                AsyncView::Pending { .. } => d == TaskSchedulingView::Done(
                    Err::<Seq<char>, FlovynErrorView>(
                        FlovynErrorView::Suspended { reason: "Task is still running: "@ + task_type },
                    ),
                ),
            }
        }),
{
}

/// A recorded timer, under the ID this sleep uses, whose latest terminal
/// event is the one at `j`: sleeping goes on exactly when that event is a
/// firing, and a cancelled timer is a `TimerError`; the timer's future
/// settles with whether it fired. Nothing is recorded.
pub proof fn law_replayed_timer_answers_its_terminal_event(c: ContextView, duration_ms: i64, j: int)
    requires
        (c.next_timer_seq as int) < kind_count(c, EventKind::Timer),
        field_str(kind_event(c, EventKind::Timer, c.next_timer_seq as int), "timerId"@) == Some(
            sleep_timer_id((c.sleep_call_counter + 1) as i32),
        ),
        latest_terminal(
            c.events,
            TerminalKind::Timer,
            sleep_timer_id((c.sleep_call_counter + 1) as i32),
        ) == Some(j),
    ensures
        ({
            let (after, r) = sleep_step(c, duration_ms);
            &&& after.commands == c.commands
            &&& (r is Ok) <==> c.events[j].event_type == EventType::TimerFired
            &&& r is Err ==> r matches Err(FlovynErrorView::TimerError(_))
        }),
        timer_async_step(c, duration_ms).1 matches AsyncView::Replayed { result, .. } && result
            == Ok::<bool, FlovynErrorView>(c.events[j].event_type == EventType::TimerFired),
{
}

/// A recorded child workflow, of the name asked for and a kind that agrees,
/// whose latest terminal event is the one at `j`, is answered by that event
/// in both forms: its output exactly when it completed, and otherwise a
/// `ChildWorkflowFailed` error for that name. Nothing is recorded.
pub proof fn law_replayed_child_workflow_answers_its_terminal_event(
    c: ContextView,
    name: Seq<char>,
    kind: Seq<char>,
    input: Seq<char>,
    j: int,
)
    requires
        (c.next_child_workflow_seq as int) < kind_count(c, EventKind::ChildWorkflow),
        field_str(
            kind_event(c, EventKind::ChildWorkflow, c.next_child_workflow_seq as int),
            "childExecutionName"@,
        ) == Some(name),
        field_str(
            kind_event(c, EventKind::ChildWorkflow, c.next_child_workflow_seq as int),
            "childWorkflowKind"@,
        ) == Some(kind),
        latest_terminal(c.events, TerminalKind::ChildWorkflow, name) == Some(j),
    ensures
        ({
            let (after, r) = child_workflow_step(c, name, kind, input);
            &&& after.commands == c.commands
            &&& (r is Ok) <==> c.events[j].event_type == EventType::ChildWorkflowCompleted
            &&& r is Err ==> (r matches Err(FlovynErrorView::ChildWorkflowFailed { name: n, .. })
                && n == name)
        }),
        child_workflow_async_step(c, name, kind, input).1 matches AsyncView::Replayed {
            result,
            ..
        } && (result is Ok) == (c.events[j].event_type == EventType::ChildWorkflowCompleted),
{
}

} // verus!
