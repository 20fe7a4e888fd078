//! Worker lifecycle: status, registration results, connection health and
//! the errors of control operations.

use vstd::prelude::*;
use std::time::SystemTime;

verus! {

#[verifier::external_type_specification]
#[verifier::external_body]
pub struct ExSystemTime(SystemTime);

/// `SystemTime::clone`: `SystemTime` is `Copy`, so a clone is the same
/// instant.
pub assume_specification[ <SystemTime as Clone>::clone ](t: &SystemTime) -> (r: SystemTime)
    ensures
        r == *t,
;

/// Current operational status of a worker.
#[derive(Debug, Clone, PartialEq, Eq)]
pub enum WorkerStatus {
    /// Initializing, not yet polling.
    Initializing,
    /// Registering with the server.
    Registering,
    /// Active and polling for work.
    Running {
        /// Server-assigned worker ID.
        server_worker_id: Option<u128>,
        /// When the worker started running.
        started_at: SystemTime,
    },
    /// Connected but temporarily paused.
    Paused {
        /// Why the worker is paused.
        reason: String,
    },
    /// Reconnecting after the connection was lost.
    Reconnecting {
        /// Reconnection attempts so far.
        attempts: u32,
        /// When the connection was lost.
        disconnected_at: SystemTime,
        /// The last error message.
        last_error: Option<String>,
    },
    /// Shutting down gracefully.
    ShuttingDown {
        /// When shutdown was requested.
        requested_at: SystemTime,
        /// Tasks and workflows still in flight.
        in_flight_count: usize,
    },
    /// Stopped.
    Stopped {
        /// When the worker stopped.
        stopped_at: SystemTime,
        /// Why it stopped.
        reason: StopReason,
    },
}

impl Default for WorkerStatus {
    fn default() -> (r: Self)
        ensures
            r is Initializing,
    {
        WorkerStatus::Initializing
    }
}

/// Why a worker stopped.
#[derive(Debug, Clone, PartialEq, Eq)]
pub enum StopReason {
    /// Normal graceful shutdown.
    Graceful,
    /// Immediate stop requested.
    Immediate,
    /// Aborted.
    Aborted,
    /// Unrecoverable error.
    Error(String),
}

/// A workflow registration conflict.
#[derive(Debug, Clone, PartialEq, Eq)]
pub struct WorkflowConflict {
    /// The workflow kind in conflict.
    pub kind: String,
    /// Why it conflicts.
    pub reason: String,
    /// The worker that already registered the kind.
    pub existing_worker_id: String,
}

/// A task registration conflict.
#[derive(Debug, Clone, PartialEq, Eq)]
pub struct TaskConflict {
    /// The task kind in conflict.
    pub kind: String,
    /// Why it conflicts.
    pub reason: String,
    /// The worker that already registered the kind.
    pub existing_worker_id: String,
}

/// The outcome of registering a worker with the server.
#[derive(Debug, Clone)]
pub struct RegistrationInfo {
    /// Server-assigned worker ID.
    pub worker_id: u128,
    /// Whether registration succeeded.
    pub success: bool,
    /// When the worker was registered.
    pub registered_at: SystemTime,
    /// Registered workflow kinds.
    pub workflow_kinds: Vec<String>,
    /// Registered task kinds.
    pub task_kinds: Vec<String>,
    /// Workflow registration conflicts.
    pub workflow_conflicts: Vec<WorkflowConflict>,
    /// Task registration conflicts.
    pub task_conflicts: Vec<TaskConflict>,
}

impl RegistrationInfo {
    /// Whether registration met any conflict.
    pub fn has_conflicts(&self) -> (r: bool)
        ensures
            r == (self.workflow_conflicts@.len() > 0 || self.task_conflicts@.len() > 0),
    {
        !self.workflow_conflicts.is_empty() || !self.task_conflicts.is_empty()
    }
}

/// The health of a worker's connection to the server.
#[derive(Debug, Clone)]
pub struct ConnectionInfo {
    /// Whether currently connected.
    pub connected: bool,
    /// Time of the last successful heartbeat.
    pub last_heartbeat: Option<SystemTime>,
    /// Time of the last successful poll.
    pub last_poll: Option<SystemTime>,
    /// Consecutive heartbeat failures.
    pub heartbeat_failures: u32,
    /// Consecutive poll failures.
    pub poll_failures: u32,
    /// Current reconnection attempt, while reconnecting.
    pub reconnect_attempt: Option<u32>,
}

impl Default for ConnectionInfo {
    fn default() -> (r: Self)
        ensures
            !r.connected,
            r.last_heartbeat is None,
            r.last_poll is None,
            r.heartbeat_failures == 0,
            r.poll_failures == 0,
            r.reconnect_attempt is None,
    {
        ConnectionInfo {
            connected: false,
            last_heartbeat: None,
            last_poll: None,
            heartbeat_failures: 0,
            poll_failures: 0,
            reconnect_attempt: None,
        }
    }
}

impl ConnectionInfo {
    /// A connection that is up, with no history.
    pub fn connected() -> (r: Self)
        ensures
            r.connected,
            r.last_heartbeat is None,
            r.last_poll is None,
            r.heartbeat_failures == 0,
            r.poll_failures == 0,
            r.reconnect_attempt is None,
    {
        ConnectionInfo { connected: true, ..Default::default() }
    }
}

/// The error of a worker control operation.
#[derive(Debug, Clone, PartialEq, Eq)]
pub enum WorkerControlError {
    /// The worker is not running.
    NotRunning,
    /// The worker is shutting down.
    ShuttingDown,
    /// The operation is not supported in the current state.
    InvalidState(String),
    /// The operation timed out.
    Timeout,
    /// The server answered with an error.
    ServerError(String),
    /// A hook rejected the operation.
    RejectedByHook(String),
}

/// The message of a worker control error.
pub open spec fn control_error_message(e: WorkerControlError) -> Seq<char> {
    match e {
        WorkerControlError::NotRunning => "Worker is not running"@,
        WorkerControlError::ShuttingDown => "Worker is shutting down"@,
        WorkerControlError::InvalidState(s) => "Operation not supported in current state: "@ + s@,
        WorkerControlError::Timeout => "Operation timed out"@,
        WorkerControlError::ServerError(s) => "Server error: "@ + s@,
        WorkerControlError::RejectedByHook(s) => "Operation rejected by hook: "@ + s@,
    }
}

impl WorkerControlError {
    /// The error's message.
    pub fn to_string(&self) -> (r: String)
        ensures
            r@ == control_error_message(*self),
    {
        match self {
            WorkerControlError::NotRunning => String::from_str("Worker is not running"),
            WorkerControlError::ShuttingDown => String::from_str("Worker is shutting down"),
            WorkerControlError::InvalidState(s) => String::from_str(
                "Operation not supported in current state: ",
            ).concat(s.as_str()),
            WorkerControlError::Timeout => String::from_str("Operation timed out"),
            WorkerControlError::ServerError(s) => String::from_str("Server error: ").concat(
                s.as_str(),
            ),
            WorkerControlError::RejectedByHook(s) => String::from_str(
                "Operation rejected by hook: ",
            ).concat(s.as_str()),
        }
    }
}

} // verus!
