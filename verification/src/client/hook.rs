//! Workflow lifecycle hooks that need no outside service: one that does
//! nothing and one that logs each event at a chosen level.

use vstd::prelude::*;

verus! {

/// The severity of a log record.
#[derive(Debug, Clone, Copy, PartialEq, Eq, Structural)]
pub enum TraceLevel {
    Trace,
    Debug,
    Info,
    Warn,
    Error,
}

/// A workflow lifecycle event that hooks observe.
#[derive(Debug, Clone, Copy, PartialEq, Eq, Structural)]
pub enum HookEvent {
    /// A workflow started executing on this worker.
    WorkflowStarted,
    /// A workflow completed.
    WorkflowCompleted,
    /// A workflow failed.
    WorkflowFailed,
    /// A task was scheduled.
    TaskScheduled,
    /// A durable promise was awaited.
    PromiseAwaited,
    /// Workflow state was updated.
    StateUpdated,
}

/// A hook that does nothing.
#[derive(Debug, Clone, Copy)]
pub struct NoOpHook;

/// A hook that logs workflow starts and completions at its level, and
/// failures as errors.
#[derive(Debug, Clone, Copy)]
pub struct LoggingHook {
    level: TraceLevel,
}

/// The level at which a logging hook of `hook_level` logs `event`, if it
/// logs it at all.
pub open spec fn logged_level(hook_level: TraceLevel, event: HookEvent) -> Option<TraceLevel> {
    match event {
        HookEvent::WorkflowStarted | HookEvent::WorkflowCompleted => Some(
            if hook_level == TraceLevel::Debug {
                TraceLevel::Debug
            } else {
                TraceLevel::Info
            },
        ),
        HookEvent::WorkflowFailed => Some(TraceLevel::Error),
        _ => None,
    }
}

/// The message a logging hook writes for `event`, if it logs it.
pub open spec fn hook_message(event: HookEvent) -> Option<Seq<char>> {
    match event {
        HookEvent::WorkflowStarted => Some("Workflow started"@),
        HookEvent::WorkflowCompleted => Some("Workflow completed"@),
        HookEvent::WorkflowFailed => Some("Workflow failed"@),
        _ => None,
    }
}

impl LoggingHook {
    /// A logging hook at `level`.
    pub fn new(level: TraceLevel) -> (r: Self)
        ensures
            r.level() == level,
    {
        LoggingHook { level }
    }

    /// A logging hook at the info level.
    pub fn info() -> (r: Self)
        ensures
            r.level() == TraceLevel::Info,
    {
        Self::new(TraceLevel::Info)
    }

    /// A logging hook at the debug level.
    pub fn debug() -> (r: Self)
        ensures
            r.level() == TraceLevel::Debug,
    {
        Self::new(TraceLevel::Debug)
    }

    /// The hook's level.
    pub closed spec fn level(&self) -> TraceLevel {
        self.level
    }

    /// The hook's level.
    pub fn get_level(&self) -> (r: TraceLevel)
        ensures
            r == self.level(),
    {
        self.level
    }

    /// The level at which this hook logs `event`, if it logs it.
    pub fn level_for(&self, event: HookEvent) -> (r: Option<TraceLevel>)
        ensures
            r == logged_level(self.level(), event),
    {
        match event {
            HookEvent::WorkflowStarted | HookEvent::WorkflowCompleted => {
                if self.level == TraceLevel::Debug {
                    Some(TraceLevel::Debug)
                } else {
                    Some(TraceLevel::Info)
                }
            },
            HookEvent::WorkflowFailed => Some(TraceLevel::Error),
            _ => None,
        }
    }

    /// The message this hook writes for `event`, if it logs it.
    pub fn message_for(&self, event: HookEvent) -> (r: Option<&'static str>)
        ensures
            match r {
                Some(m) => hook_message(event) == Some(m@),
                None => hook_message(event) is None,
            },
    {
        match event {
            HookEvent::WorkflowStarted => Some("Workflow started"),
            HookEvent::WorkflowCompleted => Some("Workflow completed"),
            HookEvent::WorkflowFailed => Some("Workflow failed"),
            _ => None,
        }
    }
}

impl Default for LoggingHook {
    fn default() -> (r: Self)
        ensures
            r.level() == TraceLevel::Info,
    {
        Self::info()
    }
}

} // verus!
