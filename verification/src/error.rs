//! Error types of the SDK.

use vstd::prelude::*;
use crate::common::text::{i64_to_decimal, signed_decimal};
use crate::workflow::event::{EventType, event_type_name};

verus! {

/// A replayed workflow did not do what its history records.
#[derive(Debug)]
pub enum DeterminismViolationError {
    /// The event at this per-type position has another type than the command.
    TypeMismatch { sequence: i32, expected: EventType, actual: EventType },
    /// A task of another type was scheduled at this position.
    TaskTypeMismatch { sequence: i32, expected: String, actual: String },
    /// An operation of another name was run at this position.
    OperationNameMismatch { sequence: i32, expected: String, actual: String },
    /// A timer of another ID was started at this position.
    TimerIdMismatch { sequence: i32, expected: String, actual: String },
    /// A promise of another name was created at this position.
    PromiseNameMismatch { sequence: i32, expected: String, actual: String },
    /// A child workflow differs in `field` (its name or kind) at this position.
    ChildWorkflowMismatch { sequence: i32, field: String, expected: String, actual: String },
    /// Another state key was set or cleared at this position.
    StateKeyMismatch { sequence: i32, expected: String, actual: String },
}

/// A determinism violation as mathematical values.
pub enum DeterminismViolationView {
    TypeMismatch { sequence: int, expected: EventType, actual: EventType },
    TaskTypeMismatch { sequence: int, expected: Seq<char>, actual: Seq<char> },
    OperationNameMismatch { sequence: int, expected: Seq<char>, actual: Seq<char> },
    TimerIdMismatch { sequence: int, expected: Seq<char>, actual: Seq<char> },
    PromiseNameMismatch { sequence: int, expected: Seq<char>, actual: Seq<char> },
    ChildWorkflowMismatch { sequence: int, field: Seq<char>, expected: Seq<char>, actual: Seq<char> },
    StateKeyMismatch { sequence: int, expected: Seq<char>, actual: Seq<char> },
}

impl View for DeterminismViolationError {
    type V = DeterminismViolationView;

    open spec fn view(&self) -> DeterminismViolationView {
        match self {
            DeterminismViolationError::TypeMismatch { sequence, expected, actual } =>
                DeterminismViolationView::TypeMismatch { sequence: *sequence as int, expected: *expected, actual: *actual },
            DeterminismViolationError::TaskTypeMismatch { sequence, expected, actual } =>
                DeterminismViolationView::TaskTypeMismatch { sequence: *sequence as int, expected: expected@, actual: actual@ },
            DeterminismViolationError::OperationNameMismatch { sequence, expected, actual } =>
                DeterminismViolationView::OperationNameMismatch { sequence: *sequence as int, expected: expected@, actual: actual@ },
            DeterminismViolationError::TimerIdMismatch { sequence, expected, actual } =>
                DeterminismViolationView::TimerIdMismatch { sequence: *sequence as int, expected: expected@, actual: actual@ },
            DeterminismViolationError::PromiseNameMismatch { sequence, expected, actual } =>
                DeterminismViolationView::PromiseNameMismatch { sequence: *sequence as int, expected: expected@, actual: actual@ },
            DeterminismViolationError::StateKeyMismatch { sequence, expected, actual } =>
                DeterminismViolationView::StateKeyMismatch { sequence: *sequence as int, expected: expected@, actual: actual@ },
            DeterminismViolationError::ChildWorkflowMismatch { sequence, field, expected, actual } =>
                DeterminismViolationView::ChildWorkflowMismatch {
                    sequence: *sequence as int,
                    field: field@,
                    expected: expected@,
                    actual: actual@,
                },
        }
    }
}

/// The text of a mismatch: what, where, what was recorded, and what was done.
pub open spec fn mismatch_text(what: Seq<char>, sequence: int, expected: Seq<char>, actual: Seq<char>) -> Seq<char> {
    what + " mismatch at sequence "@ + signed_decimal(sequence) + ": expected '"@ + expected
        + "', got '"@ + actual + "'"@
}

/// The message of a determinism violation.
pub open spec fn violation_message(v: DeterminismViolationView) -> Seq<char> {
    match v {
        DeterminismViolationView::TypeMismatch { sequence, expected, actual } =>
            mismatch_text("Type"@, sequence, event_type_name(expected), event_type_name(actual)),
        DeterminismViolationView::TaskTypeMismatch { sequence, expected, actual } =>
            mismatch_text("Task type"@, sequence, expected, actual),
        DeterminismViolationView::OperationNameMismatch { sequence, expected, actual } =>
            mismatch_text("Operation name"@, sequence, expected, actual),
        DeterminismViolationView::TimerIdMismatch { sequence, expected, actual } =>
            mismatch_text("Timer ID"@, sequence, expected, actual),
        DeterminismViolationView::PromiseNameMismatch { sequence, expected, actual } =>
            mismatch_text("Promise name"@, sequence, expected, actual),
        DeterminismViolationView::ChildWorkflowMismatch { sequence, field, expected, actual } =>
            mismatch_text("Child workflow "@ + field, sequence, expected, actual),
        DeterminismViolationView::StateKeyMismatch { sequence, expected, actual } =>
            mismatch_text("State key"@, sequence, expected, actual),
    }
}

fn mismatch_message(what: &str, sequence: i32, expected: &str, actual: &str) -> (r: String)
    ensures
        r@ == mismatch_text(what@, sequence as int, expected@, actual@),
{
    proof {
        reveal_strlit(" mismatch at sequence ");
        reveal_strlit(": expected '");
        reveal_strlit("', got '");
        reveal_strlit("'");
    }
    let r = String::from_str(what).concat(" mismatch at sequence ").concat(
        i64_to_decimal(sequence as i64).as_str(),
    ).concat(": expected '").concat(expected).concat("', got '").concat(actual).concat("'");
    assert(r@ =~= mismatch_text(what@, sequence as int, expected@, actual@));
    r
}

impl DeterminismViolationError {
    /// The message that describes this violation.
    pub fn to_string(&self) -> (r: String)
        ensures
            r@ == violation_message(self@),
    {
        match self {
            DeterminismViolationError::TypeMismatch { sequence, expected, actual } =>
                mismatch_message("Type", *sequence, expected.as_str(), actual.as_str()),
            DeterminismViolationError::TaskTypeMismatch { sequence, expected, actual } =>
                mismatch_message("Task type", *sequence, expected.as_str(), actual.as_str()),
            DeterminismViolationError::OperationNameMismatch { sequence, expected, actual } =>
                mismatch_message("Operation name", *sequence, expected.as_str(), actual.as_str()),
            DeterminismViolationError::TimerIdMismatch { sequence, expected, actual } =>
                mismatch_message("Timer ID", *sequence, expected.as_str(), actual.as_str()),
            DeterminismViolationError::PromiseNameMismatch { sequence, expected, actual } =>
                mismatch_message("Promise name", *sequence, expected.as_str(), actual.as_str()),
            DeterminismViolationError::ChildWorkflowMismatch { sequence, field, expected, actual } => {
                proof {
                    reveal_strlit("Child workflow ");
                }
                let what = String::from_str("Child workflow ").concat(field.as_str());
                mismatch_message(what.as_str(), *sequence, expected.as_str(), actual.as_str())
            },
            DeterminismViolationError::StateKeyMismatch { sequence, expected, actual } =>
                mismatch_message("State key", *sequence, expected.as_str(), actual.as_str()),
        }
    }
}

/// Main error type for the Flovyn SDK.
#[derive(Debug)]
pub enum FlovynError {
    /// Workflow is suspended waiting for an external event (task completion, promise, timer).
    Suspended { reason: String },
    /// Task was cancelled.
    TaskCancelled,
    /// Task execution failed.
    TaskFailed(String),
    /// Workflow was cancelled.
    WorkflowCancelled(String),
    /// Workflow execution failed.
    WorkflowFailed(String),
    /// Determinism violation detected during replay.
    DeterminismViolation(DeterminismViolationError),
    /// Child workflow failed.
    ChildWorkflowFailed { execution_id: String, name: String, error: String },
    /// Non-retryable error (permanent failure).
    NonRetryable(String),
    /// gRPC communication error, with the status text.
    Grpc(String),
    /// Serialization/deserialization error, with its message.
    Serialization(String),
    /// I/O error, with its message.
    Io(String),
    /// Workflow definition not found.
    WorkflowNotFound(String),
    /// Task definition not found.
    TaskNotFound(String),
    /// A promise that the workflow's history does not hold.
    PromiseNotFound(String),
    /// Invalid configuration.
    InvalidConfiguration(String),
    /// Promise timeout.
    PromiseTimeout { name: String },
    /// Promise rejected.
    PromiseRejected { name: String, error: String },
    /// Timer error.
    TimerError(String),
    /// Invalid input.
    InvalidInput(String),
    /// Network error.
    NetworkError(String),
    /// Timeout error.
    Timeout(String),
    /// Generic error.
    Other(String),
}

/// An SDK error as mathematical values.
pub enum FlovynErrorView {
    Suspended { reason: Seq<char> },
    TaskCancelled,
    TaskFailed(Seq<char>),
    WorkflowCancelled(Seq<char>),
    WorkflowFailed(Seq<char>),
    DeterminismViolation(DeterminismViolationView),
    ChildWorkflowFailed { execution_id: Seq<char>, name: Seq<char>, error: Seq<char> },
    NonRetryable(Seq<char>),
    Grpc(Seq<char>),
    Serialization(Seq<char>),
    Io(Seq<char>),
    WorkflowNotFound(Seq<char>),
    TaskNotFound(Seq<char>),
    PromiseNotFound(Seq<char>),
    InvalidConfiguration(Seq<char>),
    PromiseTimeout { name: Seq<char> },
    PromiseRejected { name: Seq<char>, error: Seq<char> },
    TimerError(Seq<char>),
    InvalidInput(Seq<char>),
    NetworkError(Seq<char>),
    Timeout(Seq<char>),
    Other(Seq<char>),
}

impl View for FlovynError {
    type V = FlovynErrorView;

    open spec fn view(&self) -> FlovynErrorView {
        match self {
            FlovynError::Suspended { reason } => FlovynErrorView::Suspended { reason: reason@ },
            FlovynError::TaskCancelled => FlovynErrorView::TaskCancelled,
            FlovynError::TaskFailed(x) => FlovynErrorView::TaskFailed(x@),
            FlovynError::WorkflowCancelled(x) => FlovynErrorView::WorkflowCancelled(x@),
            FlovynError::WorkflowFailed(x) => FlovynErrorView::WorkflowFailed(x@),
            FlovynError::DeterminismViolation(x) => FlovynErrorView::DeterminismViolation(x@),
            FlovynError::ChildWorkflowFailed { execution_id, name, error } => FlovynErrorView::ChildWorkflowFailed { execution_id: execution_id@, name: name@, error: error@ },
            FlovynError::NonRetryable(x) => FlovynErrorView::NonRetryable(x@),
            FlovynError::Grpc(x) => FlovynErrorView::Grpc(x@),
            FlovynError::Serialization(x) => FlovynErrorView::Serialization(x@),
            FlovynError::Io(x) => FlovynErrorView::Io(x@),
            FlovynError::WorkflowNotFound(x) => FlovynErrorView::WorkflowNotFound(x@),
            FlovynError::TaskNotFound(x) => FlovynErrorView::TaskNotFound(x@),
            FlovynError::PromiseNotFound(x) => FlovynErrorView::PromiseNotFound(x@),
            FlovynError::InvalidConfiguration(x) => FlovynErrorView::InvalidConfiguration(x@),
            FlovynError::PromiseTimeout { name } => FlovynErrorView::PromiseTimeout { name: name@ },
            FlovynError::PromiseRejected { name, error } => FlovynErrorView::PromiseRejected { name: name@, error: error@ },
            FlovynError::TimerError(x) => FlovynErrorView::TimerError(x@),
            FlovynError::InvalidInput(x) => FlovynErrorView::InvalidInput(x@),
            FlovynError::NetworkError(x) => FlovynErrorView::NetworkError(x@),
            FlovynError::Timeout(x) => FlovynErrorView::Timeout(x@),
            FlovynError::Other(x) => FlovynErrorView::Other(x@),
        }
    }
}

/// The message that `Display` writes for an error.
pub open spec fn error_message(e: FlovynErrorView) -> Seq<char> {
    match e {
        FlovynErrorView::Suspended { reason } => "Workflow suspended: "@ + reason,
        FlovynErrorView::TaskCancelled => "Task cancelled"@,
        FlovynErrorView::TaskFailed(x) => "Task failed: "@ + x,
        FlovynErrorView::WorkflowCancelled(x) => "Workflow cancelled: "@ + x,
        FlovynErrorView::WorkflowFailed(x) => "Workflow failed: "@ + x,
        FlovynErrorView::DeterminismViolation(x) => "Determinism violation: "@ + violation_message(x),
        FlovynErrorView::ChildWorkflowFailed { execution_id, name, error } => "Child workflow failed: "@ + name + " ("@ + execution_id + "): "@ + error,
        FlovynErrorView::NonRetryable(x) => "Non-retryable error: "@ + x,
        FlovynErrorView::Grpc(x) => "gRPC error: "@ + x,
        FlovynErrorView::Serialization(x) => "Serialization error: "@ + x,
        FlovynErrorView::Io(x) => "IO error: "@ + x,
        FlovynErrorView::WorkflowNotFound(x) => "Workflow not found: "@ + x,
        FlovynErrorView::TaskNotFound(x) => "Task not found: "@ + x,
        FlovynErrorView::PromiseNotFound(x) => "Promise not found: "@ + x,
        FlovynErrorView::InvalidConfiguration(x) => "Invalid configuration: "@ + x,
        FlovynErrorView::PromiseTimeout { name } => "Promise timeout: "@ + name,
        FlovynErrorView::PromiseRejected { name, error } => "Promise rejected: "@ + name + ": "@ + error,
        FlovynErrorView::TimerError(x) => "Timer error: "@ + x,
        FlovynErrorView::InvalidInput(x) => "Invalid input: "@ + x,
        FlovynErrorView::NetworkError(x) => "Network error: "@ + x,
        FlovynErrorView::Timeout(x) => "Timeout: "@ + x,
        FlovynErrorView::Other(x) => x,
    }
}

impl FlovynError {
    /// The message that `Display` writes for this error.
    pub fn to_string(&self) -> (r: String)
        ensures
            r@ == error_message(self@),
    {
        proof {
            reveal_strlit(" (");
            reveal_strlit("): ");
            reveal_strlit(": ");
            reveal_strlit("Child workflow failed: ");
            reveal_strlit("Determinism violation: ");
            reveal_strlit("IO error: ");
            reveal_strlit("Invalid configuration: ");
            reveal_strlit("Invalid input: ");
            reveal_strlit("Network error: ");
            reveal_strlit("Non-retryable error: ");
            reveal_strlit("Promise rejected: ");
            reveal_strlit("Promise timeout: ");
            reveal_strlit("Serialization error: ");
            reveal_strlit("Task cancelled");
            reveal_strlit("Task failed: ");
            reveal_strlit("Task not found: ");
            reveal_strlit("Timeout: ");
            reveal_strlit("Timer error: ");
            reveal_strlit("Workflow cancelled: ");
            reveal_strlit("Workflow failed: ");
            reveal_strlit("Workflow not found: ");
            reveal_strlit("Workflow suspended: ");
            reveal_strlit("gRPC error: ");
        }
        let r = match self {
            FlovynError::Suspended { reason } => String::from_str("Workflow suspended: ").concat(reason.as_str()),
            FlovynError::TaskCancelled => String::from_str("Task cancelled"),
            FlovynError::TaskFailed(x) => String::from_str("Task failed: ").concat(x.as_str()),
            FlovynError::WorkflowCancelled(x) => String::from_str("Workflow cancelled: ").concat(x.as_str()),
            FlovynError::WorkflowFailed(x) => String::from_str("Workflow failed: ").concat(x.as_str()),
            FlovynError::DeterminismViolation(x) => String::from_str("Determinism violation: ").concat(x.to_string().as_str()),
            FlovynError::ChildWorkflowFailed { execution_id, name, error } => String::from_str("Child workflow failed: ").concat(name.as_str()).concat(" (").concat(execution_id.as_str()).concat("): ").concat(error.as_str()),
            FlovynError::NonRetryable(x) => String::from_str("Non-retryable error: ").concat(x.as_str()),
            FlovynError::Grpc(x) => String::from_str("gRPC error: ").concat(x.as_str()),
            FlovynError::Serialization(x) => String::from_str("Serialization error: ").concat(x.as_str()),
            FlovynError::Io(x) => String::from_str("IO error: ").concat(x.as_str()),
            FlovynError::WorkflowNotFound(x) => String::from_str("Workflow not found: ").concat(x.as_str()),
            FlovynError::TaskNotFound(x) => String::from_str("Task not found: ").concat(x.as_str()),
            FlovynError::PromiseNotFound(x) => String::from_str("Promise not found: ").concat(x.as_str()),
            FlovynError::InvalidConfiguration(x) => String::from_str("Invalid configuration: ").concat(x.as_str()),
            FlovynError::PromiseTimeout { name } => String::from_str("Promise timeout: ").concat(name.as_str()),
            FlovynError::PromiseRejected { name, error } => String::from_str("Promise rejected: ").concat(name.as_str()).concat(": ").concat(error.as_str()),
            FlovynError::TimerError(x) => String::from_str("Timer error: ").concat(x.as_str()),
            FlovynError::InvalidInput(x) => String::from_str("Invalid input: ").concat(x.as_str()),
            FlovynError::NetworkError(x) => String::from_str("Network error: ").concat(x.as_str()),
            FlovynError::Timeout(x) => String::from_str("Timeout: ").concat(x.as_str()),
            FlovynError::Other(x) => String::from_str(x.as_str()),
        };
        assert(r@ =~= error_message(self@));
        r
    }
}

} // verus!
