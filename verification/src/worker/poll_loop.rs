//! The decisions of the workers' polling loops. Each round the loop polls
//! the server for work; these functions say, from how the poll went, what
//! the loop does next. Waiting, recording lifecycle events and polling are
//! the caller's.

use vstd::prelude::*;
use crate::common::text::{contains_text, str_contains};
use crate::error::{FlovynError, FlovynErrorView};

verus! {

/// How long a task worker waits after a poll that failed for another
/// reason than a lost connection.
pub const ERROR_RETRY_DELAY_MS: u64 = 1000;

/// How long a workflow worker waits after any failed poll.
pub const WORKFLOW_RETRY_DELAY_MS: u64 = 5000;

/// The error of starting a worker that is running already.
pub open spec fn worker_running_error() -> FlovynErrorView {
    FlovynErrorView::Other("Worker already running"@)
}

/// Whether a worker may start: not when it is running already.
pub fn check_worker_start(already_running: bool) -> (r: Result<(), FlovynError>)
    ensures
        match r {
            Ok(()) => !already_running,
            Err(e) => already_running && e@ == worker_running_error(),
        },
{
    if already_running {
        Err(FlovynError::Other(String::from_str("Worker already running")))
    } else {
        Ok(())
    }
}

/// How a round of a worker's loop begins.
#[derive(PartialEq, Eq, Structural, Debug, Clone, Copy)]
pub enum RoundStart {
    /// The worker was stopped: leave the loop.
    Stop,
    /// The worker is paused: wait for a change of the pause state or a
    /// shutdown, without polling.
    AwaitResume,
    /// Poll the server for work, while also watching for a shutdown or a
    /// change of the pause state.
    Poll,
}

/// How a round of a worker's loop begins: a stopped worker leaves the loop,
/// a paused one waits without polling, and any other polls.
pub fn round_start(running: bool, paused: bool) -> (r: RoundStart)
    ensures
        r == if !running {
            RoundStart::Stop
        } else if paused {
            RoundStart::AwaitResume
        } else {
            RoundStart::Poll
        },
{
    if !running {
        RoundStart::Stop
    } else if paused {
        RoundStart::AwaitResume
    } else {
        RoundStart::Poll
    }
}

/// How a poll for work went.
pub enum PollOutcome {
    /// The poll succeeded, whether or not it brought work.
    Polled,
    /// The poll failed with an error of this text.
    Failed { message: String },
}

/// What the polling loop does next.
#[derive(PartialEq, Eq, Structural, Debug)]
pub enum LoopAction {
    /// Poll again at once.
    Continue,
    /// The connection is back after `attempts` attempts: record that the
    /// worker reconnected, then poll again.
    Reconnected { attempts: u32 },
    /// The connection is lost: record that the worker is disconnected when
    /// `first_failure`, record reconnection attempt `attempt`, wait
    /// `delay_ms` and poll again.
    Reconnecting { attempt: u32, delay_ms: u64, first_failure: bool },
    /// Record that the worker is disconnected when `first_failure`, and stop:
    /// the reconnection strategy gives no further attempt.
    Stop { first_failure: bool },
    /// Wait `delay_ms` and poll again.
    RetryAfter { delay_ms: u64 },
}

/// Whether an error's text tells of a lost connection to the server.
pub open spec fn is_connection_message(message: Seq<char>) -> bool {
    contains_text(message, "UNAVAILABLE"@) || contains_text(message, "Connection refused"@)
}

/// Whether an error's text tells of a lost connection to the server: it
/// mentions `UNAVAILABLE` or `Connection refused`.
pub fn is_connection_error(message: &str) -> (r: bool)
    ensures
        r == is_connection_message(message@),
{
    str_contains(message, "UNAVAILABLE") || str_contains(message, "Connection refused")
}

/// The next step of a task worker's polling loop: the reconnection attempts
/// counted after it, and what the loop does.
pub open spec fn task_poll_step(
    reconnect_attempt: u32,
    failure: Option<Seq<char>>,
    strategy_delay_ms: Option<u64>,
) -> (u32, LoopAction) {
    match failure {
        None => if reconnect_attempt > 0 {
            (0, LoopAction::Reconnected { attempts: reconnect_attempt })
        } else {
            (0, LoopAction::Continue)
        },
        Some(m) => if is_connection_message(m) {
            match strategy_delay_ms {
                Some(d) => (
                    (reconnect_attempt + 1) as u32,
                    LoopAction::Reconnecting {
                        attempt: (reconnect_attempt + 1) as u32,
                        delay_ms: d,
                        first_failure: reconnect_attempt == 0,
                    },
                ),
                None => (reconnect_attempt, LoopAction::Stop { first_failure: reconnect_attempt == 0 }),
            }
        } else {
            (reconnect_attempt, LoopAction::RetryAfter { delay_ms: ERROR_RETRY_DELAY_MS })
        },
    }
}

/// The text of a failed poll, or nothing for a poll that succeeded.
pub open spec fn failure_text(outcome: PollOutcome) -> Option<Seq<char>> {
    match outcome {
        PollOutcome::Polled => None,
        PollOutcome::Failed { message } => Some(message@),
    }
}

/// Decide a task worker's next step after a poll. `reconnect_attempt`
/// counts the reconnection attempts made since the connection was lost
/// (zero while connected); `strategy_delay_ms` is what the reconnection
/// strategy answers for that count: the wait before the next attempt, or
/// nothing when no attempt is left.
///
/// A successful poll resets the count, and reports the reconnection when
/// there were attempts. A lost connection counts one attempt more and waits
/// as the strategy says, or stops when it gives no delay; the first such
/// failure marks the worker disconnected. Any other failure waits a second.
pub fn next_poll_step(
    reconnect_attempt: u32,
    outcome: &PollOutcome,
    strategy_delay_ms: Option<u64>,
) -> (r: (u32, LoopAction))
    requires
        failure_text(*outcome) matches Some(m) && is_connection_message(m)
            && strategy_delay_ms is Some ==> reconnect_attempt < u32::MAX,
    ensures
        r == task_poll_step(reconnect_attempt, failure_text(*outcome), strategy_delay_ms),
{
    match outcome {
        PollOutcome::Polled => {
            if reconnect_attempt > 0 {
                (0, LoopAction::Reconnected { attempts: reconnect_attempt })
            } else {
                (0, LoopAction::Continue)
            }
        },
        PollOutcome::Failed { message } => {
            if is_connection_error(message.as_str()) {
                match strategy_delay_ms {
                    Some(d) => {
                        let attempt = reconnect_attempt + 1;
                        (
                            attempt,
                            LoopAction::Reconnecting {
                                attempt,
                                delay_ms: d,
                                first_failure: reconnect_attempt == 0,
                            },
                        )
                    },
                    None => (reconnect_attempt, LoopAction::Stop { first_failure: reconnect_attempt == 0 }),
                }
            } else {
                (reconnect_attempt, LoopAction::RetryAfter { delay_ms: ERROR_RETRY_DELAY_MS })
            }
        },
    }
}

/// The reconnection count of a task worker's loop: a successful poll resets
/// it; a lost connection adds at most one attempt, and only while the
/// strategy gives a delay; the worker is marked disconnected only on the
/// first failure after being connected, and stops only when the connection
/// is lost and the strategy gives no delay.
pub proof fn law_reconnect_count(
    reconnect_attempt: u32,
    failure: Option<Seq<char>>,
    strategy_delay_ms: Option<u64>,
)
    requires
        reconnect_attempt < u32::MAX,
    ensures
        ({
            let (count, action) = task_poll_step(reconnect_attempt, failure, strategy_delay_ms);
            &&& failure is None ==> count == 0
            &&& count <= reconnect_attempt + 1
            &&& count == reconnect_attempt + 1 ==> strategy_delay_ms is Some
            &&& (action matches LoopAction::Reconnecting { first_failure, .. }
                && first_failure) ==> reconnect_attempt == 0
            &&& (action is Stop) <==> (failure matches Some(m) && is_connection_message(m)
                && strategy_delay_ms is None)
        }),
{
}

/// Decide a workflow worker's next step after a poll: a failed poll, for
/// whatever reason, waits five seconds; a successful one polls again.
pub fn next_workflow_poll_step(outcome: &PollOutcome) -> (r: LoopAction)
    ensures
        r == match failure_text(*outcome) {
            None => LoopAction::Continue,
            Some(_) => LoopAction::RetryAfter { delay_ms: WORKFLOW_RETRY_DELAY_MS },
        },
{
    match outcome {
        PollOutcome::Polled => LoopAction::Continue,
        PollOutcome::Failed { .. } => LoopAction::RetryAfter { delay_ms: WORKFLOW_RETRY_DELAY_MS },
    }
}

} // verus!
