//! A task context for unit tests: it records the task's log messages and
//! lets the test set the attempt and request cancellation.

use crate::common::ids::{is_random_uuid, uuid_v4};
use crate::common::text::{contains_text, str_contains};
use crate::error::FlovynError;
use crate::error::FlovynErrorView;
use crate::task::context::{LogLevel, check_cancelled};
use crate::common::filter::{lemma_filter_empty, lemma_filter_push};
use vstd::prelude::*;

verus! {

/// A log message the task wrote.
#[derive(Debug, Clone)]
pub struct LogMessage {
    pub level: LogLevel,
    pub message: String,
}

/// A log message as mathematical values.
pub open spec fn log_view(m: LogMessage) -> (LogLevel, Seq<char>) {
    (m.level, m.message@)
}

/// The messages of `logs` at `level`, in order.
pub open spec fn logs_at_level(logs: Seq<(LogLevel, Seq<char>)>, level: LogLevel) -> Seq<
    (LogLevel, Seq<char>),
> {
    logs.filter(at_level(level))
}

/// Whether a log message is at `level`.
pub open spec fn at_level(level: LogLevel) -> spec_fn((LogLevel, Seq<char>)) -> bool {
    |m: (LogLevel, Seq<char>)| m.0 == level
}

/// Whether some message of `logs` contains `text`.
pub open spec fn logged(logs: Seq<(LogLevel, Seq<char>)>, text: Seq<char>) -> bool {
    exists|i: int| 0 <= i < logs.len() && contains_text(#[trigger] logs[i].1, text)
}

/// A mock task context as mathematical values.
pub struct MockTaskView {
    pub task_execution_id: u128,
    pub attempt: u32,
    pub cancelled: bool,
    /// The log messages, in the order they were written.
    pub logs: Seq<(LogLevel, Seq<char>)>,
}

/// A task context for tests.
pub struct MockTaskContext {
    task_execution_id: u128,
    attempt: u32,
    cancelled: bool,
    log_messages: Vec<LogMessage>,
}

impl View for MockTaskContext {
    type V = MockTaskView;

    closed spec fn view(&self) -> MockTaskView {
        MockTaskView {
            task_execution_id: self.task_execution_id,
            attempt: self.attempt,
            cancelled: self.cancelled,
            logs: self.log_messages@.map_values(|m: LogMessage| log_view(m)),
        }
    }
}

fn copy_log(m: &LogMessage) -> (r: LogMessage)
    ensures
        log_view(r) == log_view(*m),
{
    LogMessage { level: m.level, message: m.message.clone() }
}

impl MockTaskContext {
    /// A builder of mock task contexts.
    pub fn builder() -> (r: MockTaskContextBuilder)
        ensures
            r@ == (MockTaskBuilderView { task_execution_id: None, attempt: None, cancelled: false }),
    {
        MockTaskContextBuilder::new()
    }

    /// A mock context with a fresh random ID, attempt 1, not cancelled, and
    /// no log messages.
    pub fn new() -> (r: Self)
        ensures
            is_random_uuid(r@.task_execution_id),
            r@.attempt == 1,
            !r@.cancelled,
            r@.logs.len() == 0,
    {
        Self::builder().build()
    }

    /// The task execution's ID.
    pub fn task_execution_id(&self) -> (r: u128)
        ensures
            r == self@.task_execution_id,
    {
        self.task_execution_id
    }

    /// The attempt number.
    pub fn attempt(&self) -> (r: u32)
        ensures
            r == self@.attempt,
    {
        self.attempt
    }

    /// Whether cancellation was requested.
    pub fn is_cancelled(&self) -> (r: bool)
        ensures
            r == self@.cancelled,
    {
        self.cancelled
    }

    /// `Err(TaskCancelled)` once cancellation was requested, `Ok(())` before.
    pub fn check_cancellation(&self) -> (r: Result<(), FlovynError>)
        ensures
            match r {
                Ok(()) => !self@.cancelled,
                Err(e) => self@.cancelled && e@ == FlovynErrorView::TaskCancelled,
            },
    {
        check_cancelled(self.cancelled)
    }

    /// Record a log message; it always succeeds.
    pub fn log(&mut self, level: LogLevel, message: &str) -> (r: Result<(), FlovynError>)
        ensures
            r is Ok,
            final(self)@ == (MockTaskView {
                logs: old(self)@.logs.push((level, message@)),
                ..old(self)@
            }),
    {
        let ghost before = self@;
        self.log_messages.push(LogMessage { level, message: String::from_str(message) });
        assert(self@.logs =~= before.logs.push((level, message@)));
        Ok(())
    }

    /// Every log message, in order.
    pub fn log_messages(&self) -> (r: Vec<LogMessage>)
        ensures
            r@.map_values(|m: LogMessage| log_view(m)) == self@.logs,
    {
        let mut r: Vec<LogMessage> = Vec::new();
        let mut i: usize = 0;
        while i < self.log_messages.len()
            invariant
                i <= self.log_messages@.len(),
                r@.map_values(|m: LogMessage| log_view(m)) == self@.logs.take(i as int),
            decreases self.log_messages@.len() - i,
        {
            let m = copy_log(&self.log_messages[i]);
            proof {
                assert(self@.logs.take(i + 1) =~= self@.logs.take(i as int).push(log_view(m)));
            }
            r.push(m);
            proof {
                assert(r@.map_values(|m: LogMessage| log_view(m)) =~= self@.logs.take(i + 1));
            }
            i = i + 1;
        }
        assert(self@.logs.take(self.log_messages@.len() as int) =~= self@.logs);
        r
    }

    /// The log messages at `level`, in order.
    pub fn log_messages_at_level(&self, level: LogLevel) -> (r: Vec<LogMessage>)
        ensures
            r@.map_values(|m: LogMessage| log_view(m)) == logs_at_level(self@.logs, level),
    {
        let mut r: Vec<LogMessage> = Vec::new();
        let mut i: usize = 0;
        proof {
            lemma_filter_empty(self@.logs.take(0), at_level(level));
            assert(r@.map_values(|m: LogMessage| log_view(m)) =~= Seq::<(LogLevel, Seq<char>)>::empty());
        }
        while i < self.log_messages.len()
            invariant
                i <= self.log_messages@.len(),
                r@.map_values(|m: LogMessage| log_view(m)) == logs_at_level(
                    self@.logs.take(i as int),
                    level,
                ),
            decreases self.log_messages@.len() - i,
        {
            let ghost prefix = self@.logs.take(i as int);
            proof {
                assert(self@.logs.take(i + 1) =~= prefix.push(self@.logs[i as int]));
                lemma_filter_push(prefix, self@.logs[i as int], at_level(level));
            }
            if self.log_messages[i].level == level {
                let m = copy_log(&self.log_messages[i]);
                let ghost old_r = r@;
                r.push(m);
                proof {
                    assert(r@.map_values(|m: LogMessage| log_view(m)) =~= old_r.map_values(
                        |m: LogMessage| log_view(m),
                    ).push(self@.logs[i as int]));
                }
            }
            i = i + 1;
        }
        assert(self@.logs.take(self.log_messages@.len() as int) =~= self@.logs);
        r
    }

    /// Whether some log message contains `message`.
    pub fn was_logged(&self, message: &str) -> (r: bool)
        ensures
            r == logged(self@.logs, message@),
    {
        let mut i: usize = 0;
        while i < self.log_messages.len()
            invariant
                i <= self.log_messages@.len(),
                forall|j: int| 0 <= j < i ==> !contains_text(#[trigger] self@.logs[j].1, message@),
            decreases self.log_messages@.len() - i,
        {
            if str_contains(self.log_messages[i].message.as_str(), message) {
                assert(contains_text(self@.logs[i as int].1, message@));
                return true;
            }
            i = i + 1;
        }
        false
    }

    /// Request cancellation.
    pub fn cancel(&mut self)
        ensures
            final(self)@ == (MockTaskView { cancelled: true, ..old(self)@ }),
    {
        self.cancelled = true;
    }

    /// Set the attempt number.
    pub fn set_attempt(&mut self, attempt: u32)
        ensures
            final(self)@ == (MockTaskView { attempt, ..old(self)@ }),
    {
        self.attempt = attempt;
    }

    /// Forget every recorded log message.
    pub fn clear_recordings(&mut self)
        ensures
            final(self)@ == (MockTaskView { logs: Seq::empty(), ..old(self)@ }),
    {
        self.log_messages = Vec::new();
        assert(self@.logs =~= Seq::<(LogLevel, Seq<char>)>::empty());
    }
}

impl Default for MockTaskContext {
    fn default() -> (r: Self)
        ensures
            is_random_uuid(r@.task_execution_id),
            r@.attempt == 1,
            !r@.cancelled,
            r@.logs.len() == 0,
    {
        Self::new()
    }
}

/// A mock task context builder as mathematical values.
pub struct MockTaskBuilderView {
    pub task_execution_id: Option<u128>,
    pub attempt: Option<u32>,
    pub cancelled: bool,
}

/// Builder of [`MockTaskContext`].
pub struct MockTaskContextBuilder {
    task_execution_id: Option<u128>,
    attempt: Option<u32>,
    cancelled: bool,
}

impl View for MockTaskContextBuilder {
    type V = MockTaskBuilderView;

    closed spec fn view(&self) -> MockTaskBuilderView {
        MockTaskBuilderView {
            task_execution_id: self.task_execution_id,
            attempt: self.attempt,
            cancelled: self.cancelled,
        }
    }
}

impl MockTaskContextBuilder {
    /// A builder with nothing set.
    pub fn new() -> (r: Self)
        ensures
            r@ == (MockTaskBuilderView { task_execution_id: None, attempt: None, cancelled: false }),
    {
        MockTaskContextBuilder { task_execution_id: None, attempt: None, cancelled: false }
    }

    /// Set the task execution ID.
    pub fn task_execution_id(self, id: u128) -> (r: Self)
        ensures
            r@ == (MockTaskBuilderView { task_execution_id: Some(id), ..self@ }),
    {
        MockTaskContextBuilder { task_execution_id: Some(id), ..self }
    }

    /// Set the attempt number.
    pub fn attempt(self, attempt: u32) -> (r: Self)
        ensures
            r@ == (MockTaskBuilderView { attempt: Some(attempt), ..self@ }),
    {
        MockTaskContextBuilder { attempt: Some(attempt), ..self }
    }

    /// Mark the task as cancelled.
    pub fn cancelled(self) -> (r: Self)
        ensures
            r@ == (MockTaskBuilderView { cancelled: true, ..self@ }),
    {
        MockTaskContextBuilder { cancelled: true, ..self }
    }

    /// The context: the ID set, else a fresh random one; the attempt set,
    /// else 1; no log messages.
    pub fn build(self) -> (r: MockTaskContext)
        ensures
            self@.task_execution_id matches Some(id) ==> r@.task_execution_id == id,
            self@.task_execution_id is None ==> is_random_uuid(r@.task_execution_id),
            r@.attempt == match self@.attempt {
                Some(a) => a,
                None => 1,
            },
            r@.cancelled == self@.cancelled,
            r@.logs.len() == 0,
    {
        let task_execution_id = match self.task_execution_id {
            Some(id) => id,
            None => uuid_v4(),
        };
        let attempt = match self.attempt {
            Some(a) => a,
            None => 1,
        };
        MockTaskContext {
            task_execution_id,
            attempt,
            cancelled: self.cancelled,
            log_messages: Vec::new(),
        }
    }
}

impl Default for MockTaskContextBuilder {
    fn default() -> (r: Self)
        ensures
            r@ == (MockTaskBuilderView { task_execution_id: None, attempt: None, cancelled: false }),
    {
        Self::new()
    }
}

} // verus!
