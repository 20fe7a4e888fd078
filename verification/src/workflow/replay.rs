//! The mathematical model of replay: which history events each kind of
//! workflow command is matched against, and how terminal events are found.

use vstd::prelude::*;
use crate::common::kv::{KvView, kv_insert, kv_remove, kv_unique, lemma_kv_insert, lemma_kv_remove};
use crate::workflow::event::{
    EventType, ReplayEvent, ReplayEventView, field_json, field_str, history_view,
};

verus! {

/// The kinds of commands that are matched against history, each against its
/// own sub-list of events.
#[derive(Debug, Clone, Copy, PartialEq, Eq, Structural)]
pub enum EventKind {
    /// `TaskScheduled` events.
    Task,
    /// `ChildWorkflowInitiated` events.
    ChildWorkflow,
    /// `TimerStarted` events.
    Timer,
    /// `OperationCompleted` events.
    Operation,
    /// `PromiseCreated` events.
    Promise,
    /// `StateSet` and `StateCleared` events.
    State,
}

/// Whether an event belongs to the sub-list of `kind`.
pub open spec fn is_of_kind(t: EventType, kind: EventKind) -> bool {
    match kind {
        EventKind::Task => t == EventType::TaskScheduled,
        EventKind::ChildWorkflow => t == EventType::ChildWorkflowInitiated,
        EventKind::Timer => t == EventType::TimerStarted,
        EventKind::Operation => t == EventType::OperationCompleted,
        EventKind::Promise => t == EventType::PromiseCreated,
        EventKind::State => t == EventType::StateSet || t == EventType::StateCleared,
    }
}

/// Positions in `evs` of the events of `kind`, in history order.
pub open spec fn kind_positions(evs: Seq<ReplayEventView>, kind: EventKind) -> Seq<int>
    decreases evs.len(),
{
    if evs.len() == 0 {
        Seq::empty()
    } else {
        let p = kind_positions(evs.drop_last(), kind);
        if is_of_kind(evs.last().event_type, kind) {
            p.push(evs.len() - 1)
        } else {
            p
        }
    }
}

/// The terminal-event families that resolve a pending command.
#[derive(Debug, Clone, Copy, PartialEq, Eq, Structural)]
pub enum TerminalKind {
    /// `TaskCompleted` / `TaskFailed`, matched by task execution ID.
    Task,
    /// `TimerFired` / `TimerCancelled`, matched by timer ID.
    Timer,
    /// `PromiseResolved` / `PromiseRejected` / `PromiseTimeout`, matched by promise name.
    Promise,
    /// `ChildWorkflowCompleted` / `ChildWorkflowFailed`, matched by child execution name.
    ChildWorkflow,
}

/// Whether `t` is one of the terminal event types of `kind`.
pub open spec fn is_terminal_type(t: EventType, kind: TerminalKind) -> bool {
    match kind {
        TerminalKind::Task => t == EventType::TaskCompleted || t == EventType::TaskFailed,
        TerminalKind::Timer => t == EventType::TimerFired || t == EventType::TimerCancelled,
        TerminalKind::Promise => t == EventType::PromiseResolved || t == EventType::PromiseRejected
            || t == EventType::PromiseTimeout,
        TerminalKind::ChildWorkflow => t == EventType::ChildWorkflowCompleted || t
            == EventType::ChildWorkflowFailed,
    }
}

/// The first of two optional strings that is present.
pub open spec fn or_else(a: Option<Seq<char>>, b: Option<Seq<char>>) -> Option<Seq<char>> {
    if a is Some {
        a
    } else {
        b
    }
}

/// The identifier by which an event of `kind` refers to what it resolves.
pub open spec fn terminal_id(e: ReplayEventView, kind: TerminalKind) -> Option<Seq<char>> {
    match kind {
        TerminalKind::Task => or_else(
            field_str(e, "taskExecutionId"@),
            field_str(e, "taskId"@),
        ),
        TerminalKind::Timer => field_str(e, "timerId"@),
        TerminalKind::Promise => or_else(field_str(e, "promiseName"@), field_str(e, "promiseId"@)),
        TerminalKind::ChildWorkflow => field_str(e, "childExecutionName"@),
    }
}

/// Whether `e` is a terminal event of `kind` for `id`.
pub open spec fn is_terminal_for(e: ReplayEventView, kind: TerminalKind, id: Seq<char>) -> bool {
    terminal_id(e, kind) == Some(id) && is_terminal_type(e.event_type, kind)
}

/// The terminal event of `kind` for `id` with the greatest sequence number;
/// among equals, the one that comes last in the history.
pub open spec fn latest_terminal(evs: Seq<ReplayEventView>, kind: TerminalKind, id: Seq<char>) -> Option<int>
    decreases evs.len(),
{
    if evs.len() == 0 {
        None
    } else {
        let prev = latest_terminal(evs.drop_last(), kind, id);
        let i = evs.len() - 1;
        if is_terminal_for(evs[i], kind, id) {
            match prev {
                None => Some(i),
                Some(j) => if evs[i].sequence_number >= evs[j].sequence_number {
                    Some(i)
                } else {
                    Some(j)
                },
            }
        } else {
            prev
        }
    }
}

/// The workflow state that the history establishes: each `StateSet` binds its
/// key to its value, each `StateCleared` removes its key.
pub open spec fn state_from_history(evs: Seq<ReplayEventView>) -> KvView
    decreases evs.len(),
{
    if evs.len() == 0 {
        Seq::empty()
    } else {
        let m = state_from_history(evs.drop_last());
        let e = evs.last();
        if e.event_type == EventType::StateSet && field_str(e, "key"@) is Some && field_json(
            e,
            "value"@,
        ) is Some {
            kv_insert(m, field_str(e, "key"@)->0, field_json(e, "value"@)->0)
        } else if e.event_type == EventType::StateCleared && field_str(e, "key"@) is Some {
            kv_remove(m, field_str(e, "key"@)->0)
        } else {
            m
        }
    }
}

pub proof fn lemma_kind_positions(evs: Seq<ReplayEventView>, kind: EventKind)
    ensures
        kind_positions(evs, kind).len() <= evs.len(),
        forall|k: int|
            0 <= k < kind_positions(evs, kind).len() ==> 0 <= #[trigger] kind_positions(evs, kind)[k]
                < evs.len() && is_of_kind(evs[kind_positions(evs, kind)[k]].event_type, kind),
    decreases evs.len(),
{
    if evs.len() > 0 {
        lemma_kind_positions(evs.drop_last(), kind);
        let p = kind_positions(evs.drop_last(), kind);
        assert forall|k: int| 0 <= k < p.len() implies evs[p[k]] == evs.drop_last()[p[k]] by {}
    }
}

pub proof fn lemma_latest_terminal(evs: Seq<ReplayEventView>, kind: TerminalKind, id: Seq<char>)
    ensures
        latest_terminal(evs, kind, id) matches Some(j) ==> 0 <= j < evs.len() && is_terminal_for(
            evs[j],
            kind,
            id,
        ),
    decreases evs.len(),
{
    if evs.len() > 0 {
        lemma_latest_terminal(evs.drop_last(), kind, id);
    }
}

pub proof fn lemma_state_from_history(evs: Seq<ReplayEventView>)
    ensures
        kv_unique(state_from_history(evs)),
    decreases evs.len(),
{
    if evs.len() > 0 {
        let m = state_from_history(evs.drop_last());
        lemma_state_from_history(evs.drop_last());
        let e = evs.last();
        if e.event_type == EventType::StateSet && field_str(e, "key"@) is Some && field_json(
            e,
            "value"@,
        ) is Some {
            lemma_kv_insert(m, field_str(e, "key"@)->0, field_json(e, "value"@)->0, Seq::empty());
        } else if e.event_type == EventType::StateCleared && field_str(e, "key"@) is Some {
            lemma_kv_remove(m, field_str(e, "key"@)->0, Seq::empty());
        }
    }
}

pub fn event_kind_matches(t: EventType, kind: EventKind) -> (r: bool)
    ensures
        r == is_of_kind(t, kind),
{
    match kind {
        EventKind::Task => t == EventType::TaskScheduled,
        EventKind::ChildWorkflow => t == EventType::ChildWorkflowInitiated,
        EventKind::Timer => t == EventType::TimerStarted,
        EventKind::Operation => t == EventType::OperationCompleted,
        EventKind::Promise => t == EventType::PromiseCreated,
        EventKind::State => t == EventType::StateSet || t == EventType::StateCleared,
    }
}

/// Positions of the events of `kind` in `events`.
pub fn positions_of(events: &Vec<ReplayEvent>, kind: EventKind) -> (r: Vec<usize>)
    ensures
        r@.len() == kind_positions(history_view(events@), kind).len(),
        forall|k: int|
            0 <= k < r@.len() ==> r@[k] as int == #[trigger] kind_positions(
                history_view(events@),
                kind,
            )[k],
{
    let ghost evs = history_view(events@);
    let mut r: Vec<usize> = Vec::new();
    let mut i: usize = 0;
    while i < events.len()
        invariant
            i <= events@.len(),
            evs == history_view(events@),
            r@.len() == kind_positions(evs.take(i as int), kind).len(),
            forall|k: int|
                0 <= k < r@.len() ==> r@[k] as int == #[trigger] kind_positions(
                    evs.take(i as int),
                    kind,
                )[k],
        decreases events@.len() - i,
    {
        assert(evs.take(i + 1).drop_last() =~= evs.take(i as int));
        assert(evs.take(i + 1).last() == events@[i as int]@);
        if event_kind_matches(events[i].event_type, kind) {
            r.push(i);
        }
        i = i + 1;
    }
    assert(evs.take(i as int) =~= evs);
    r
}

fn terminal_type_matches(t: EventType, kind: TerminalKind) -> (r: bool)
    ensures
        r == is_terminal_type(t, kind),
{
    match kind {
        TerminalKind::Task => t == EventType::TaskCompleted || t == EventType::TaskFailed,
        TerminalKind::Timer => t == EventType::TimerFired || t == EventType::TimerCancelled,
        TerminalKind::Promise => t == EventType::PromiseResolved || t == EventType::PromiseRejected
            || t == EventType::PromiseTimeout,
        TerminalKind::ChildWorkflow => t == EventType::ChildWorkflowCompleted || t
            == EventType::ChildWorkflowFailed,
    }
}

fn terminal_id_of(e: &ReplayEvent, kind: TerminalKind) -> (r: Option<String>)
    ensures
        match r {
            Some(s) => terminal_id(e@, kind) == Some(s@),
            None => terminal_id(e@, kind) is None,
        },
{
    match kind {
        TerminalKind::Task => match e.get_string("taskExecutionId") {
            Some(s) => Some(s),
            None => e.get_string("taskId"),
        },
        TerminalKind::Timer => e.get_string("timerId"),
        TerminalKind::Promise => match e.get_string("promiseName") {
            Some(s) => Some(s),
            None => e.get_string("promiseId"),
        },
        TerminalKind::ChildWorkflow => e.get_string("childExecutionName"),
    }
}

/// Find the latest terminal event of `kind` for `id`.
pub fn find_terminal(events: &Vec<ReplayEvent>, kind: TerminalKind, id: &str) -> (r: Option<usize>)
    ensures
        match r {
            Some(j) => latest_terminal(history_view(events@), kind, id@) == Some(
                j as int,
            ),
            None => latest_terminal(history_view(events@), kind, id@) is None,
        },
{
    let ghost evs = history_view(events@);
    let mut best: Option<usize> = None;
    let mut i: usize = 0;
    let target = String::from_str(id);
    while i < events.len()
        invariant
            i <= events@.len(),
            evs == history_view(events@),
            target@ == id@,
            match best {
                Some(j) => latest_terminal(evs.take(i as int), kind, id@) == Some(j as int) && j < i,
                None => latest_terminal(evs.take(i as int), kind, id@) is None,
            },
        decreases events@.len() - i,
    {
        let ghost t = evs.take(i + 1);
        assert(t.drop_last() =~= evs.take(i as int));
        assert(t[i as int] == events@[i as int]@);
        proof {
            lemma_latest_terminal(evs.take(i as int), kind, id@);
        }
        let hit = match terminal_id_of(&events[i], kind) {
            Some(s) => s == target && terminal_type_matches(events[i].event_type, kind),
            None => false,
        };
        if hit {
            match best {
                None => {
                    best = Some(i);
                },
                Some(j) => {
                    assert(t[j as int] == events@[j as int]@);
                    if events[i].sequence_number >= events[j].sequence_number {
                        best = Some(i);
                    }
                },
            }
        } else {
            match best {
                Some(j) => {},
                None => {},
            }
        }
        i = i + 1;
    }
    assert(evs.take(i as int) =~= evs);
    best
}

} // verus!
