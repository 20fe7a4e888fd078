//! The outcome of a workflow operation, which keeps the control flow of
//! replay (suspension, determinism violations) apart from the errors a
//! workflow is meant to handle.

use vstd::prelude::*;
use crate::error::{DeterminismViolationError, FlovynError};

verus! {

/// The outcome of a workflow operation.
#[derive(Debug)]
pub enum WorkflowOutcome<T> {
    /// The operation completed with a value or an application error.
    Ready(Result<T, FlovynError>),
    /// The workflow must suspend until an external event arrives.
    Suspended {
        /// Why the workflow suspends.
        reason: String,
    },
    /// Replay found behaviour that differs from the recorded history.
    DeterminismViolation(DeterminismViolationError),
}

impl<T> WorkflowOutcome<T> {
    /// A successful outcome.
    pub fn ok(value: T) -> (r: Self)
        ensures
            r == WorkflowOutcome::Ready(Ok::<T, FlovynError>(value)),
    {
        WorkflowOutcome::Ready(Ok(value))
    }

    /// An application or infrastructure error.
    pub fn err(error: FlovynError) -> (r: Self)
        ensures
            r == WorkflowOutcome::<T>::Ready(Err(error)),
    {
        WorkflowOutcome::Ready(Err(error))
    }

    /// A suspension for `reason`.
    pub fn suspended(reason: &str) -> (r: Self)
        ensures
            r matches WorkflowOutcome::Suspended { reason: s } && s@ == reason@,
    {
        WorkflowOutcome::Suspended { reason: String::from_str(reason) }
    }

    /// A determinism violation.
    pub fn determinism_violation(error: DeterminismViolationError) -> (r: Self)
        ensures
            r == WorkflowOutcome::<T>::DeterminismViolation(error),
    {
        WorkflowOutcome::DeterminismViolation(error)
    }

    /// Whether the workflow must suspend.
    pub fn is_suspended(&self) -> (r: bool)
        ensures
            r == self is Suspended,
    {
        match self {
            WorkflowOutcome::Suspended { .. } => true,
            _ => false,
        }
    }

    /// Whether replay found a determinism violation.
    pub fn is_determinism_violation(&self) -> (r: bool)
        ensures
            r == self is DeterminismViolation,
    {
        match self {
            WorkflowOutcome::DeterminismViolation(_) => true,
            _ => false,
        }
    }

    /// Whether the operation completed, with a value or an error.
    pub fn is_ready(&self) -> (r: bool)
        ensures
            r == self is Ready,
    {
        match self {
            WorkflowOutcome::Ready(_) => true,
            _ => false,
        }
    }

    /// Whether the operation completed with a value.
    pub fn is_ok(&self) -> (r: bool)
        ensures
            r == (self matches WorkflowOutcome::Ready(Ok(_))),
    {
        match self {
            WorkflowOutcome::Ready(Ok(_)) => true,
            _ => false,
        }
    }

    /// Whether the operation completed with an application error.
    pub fn is_err(&self) -> (r: bool)
        ensures
            r == (self matches WorkflowOutcome::Ready(Err(_))),
    {
        match self {
            WorkflowOutcome::Ready(Err(_)) => true,
            _ => false,
        }
    }

    /// The outcome as a `Result`, the control-flow cases as their errors.
    pub fn into_result_legacy(self) -> (r: Result<T, FlovynError>)
        ensures
            r == match self {
                WorkflowOutcome::Ready(result) => result,
                WorkflowOutcome::Suspended { reason } => Err(FlovynError::Suspended { reason }),
                WorkflowOutcome::DeterminismViolation(e) => Err(FlovynError::DeterminismViolation(e)),
            },
    {
        match self {
            WorkflowOutcome::Ready(result) => result,
            WorkflowOutcome::Suspended { reason } => Err(FlovynError::Suspended { reason }),
            WorkflowOutcome::DeterminismViolation(e) => Err(FlovynError::DeterminismViolation(e)),
        }
    }

    /// Apply `f` to the value of a successful outcome; the other outcomes
    /// are kept as they are.
    pub fn map<U, F: FnOnce(T) -> U>(self, f: F) -> (r: WorkflowOutcome<U>)
        requires
            self matches WorkflowOutcome::Ready(Ok(v)) ==> call_requires(f, (v,)),
        ensures
            match self {
                WorkflowOutcome::Ready(Ok(v)) => r matches WorkflowOutcome::Ready(Ok(u)) && call_ensures(
                    f,
                    (v,),
                    u,
                ),
                WorkflowOutcome::Ready(Err(e)) => r == WorkflowOutcome::<U>::Ready(Err(e)),
                WorkflowOutcome::Suspended { reason } => r == WorkflowOutcome::<U>::Suspended {
                    reason,
                },
                WorkflowOutcome::DeterminismViolation(e) => r
                    == WorkflowOutcome::<U>::DeterminismViolation(e),
            },
    {
        match self {
            WorkflowOutcome::Ready(Ok(value)) => WorkflowOutcome::Ready(Ok(f(value))),
            WorkflowOutcome::Ready(Err(e)) => WorkflowOutcome::Ready(Err(e)),
            WorkflowOutcome::Suspended { reason } => WorkflowOutcome::Suspended { reason },
            WorkflowOutcome::DeterminismViolation(e) => WorkflowOutcome::DeterminismViolation(e),
        }
    }

    /// Apply `f` to the error of an outcome that completed with one; the
    /// other outcomes are kept as they are.
    pub fn map_err<F: FnOnce(FlovynError) -> FlovynError>(self, f: F) -> (r: WorkflowOutcome<T>)
        requires
            self matches WorkflowOutcome::Ready(Err(e)) ==> call_requires(f, (e,)),
        ensures
            match self {
                WorkflowOutcome::Ready(Err(e)) => r matches WorkflowOutcome::Ready(Err(e2))
                    && call_ensures(f, (e,), e2),
                _ => r == self,
            },
    {
        match self {
            WorkflowOutcome::Ready(Ok(value)) => WorkflowOutcome::Ready(Ok(value)),
            WorkflowOutcome::Ready(Err(e)) => WorkflowOutcome::Ready(Err(f(e))),
            WorkflowOutcome::Suspended { reason } => WorkflowOutcome::Suspended { reason },
            WorkflowOutcome::DeterminismViolation(e) => WorkflowOutcome::DeterminismViolation(e),
        }
    }

    /// The value of a successful outcome.
    pub fn unwrap(self) -> (r: T)
        requires
            self matches WorkflowOutcome::Ready(Ok(_)),
        ensures
            self == WorkflowOutcome::Ready(Ok::<T, FlovynError>(r)),
    {
        match self {
            WorkflowOutcome::Ready(Ok(value)) => value,
            _ => unreached(),
        }
    }

    /// The reason of a suspension.
    pub fn suspension_reason(&self) -> (r: Option<&str>)
        ensures
            match self {
                WorkflowOutcome::Suspended { reason } => r matches Some(s) && s@ == reason@,
                _ => r is None,
            },
    {
        match self {
            WorkflowOutcome::Suspended { reason } => Some(reason.as_str()),
            _ => None,
        }
    }

    /// The violation found by replay.
    pub fn determinism_error(&self) -> (r: Option<&DeterminismViolationError>)
        ensures
            match self {
                WorkflowOutcome::DeterminismViolation(e) => r == Some(e),
                _ => r is None,
            },
    {
        match self {
            WorkflowOutcome::DeterminismViolation(e) => Some(e),
            _ => None,
        }
    }
}

impl<T> From<Result<T, FlovynError>> for WorkflowOutcome<T> {
    fn from(result: Result<T, FlovynError>) -> (r: Self) {
        WorkflowOutcome::Ready(result)
    }
}

impl<T> vstd::std_specs::convert::FromSpecImpl<Result<T, FlovynError>> for WorkflowOutcome<T> {
    open spec fn obeys_from_spec() -> bool {
        true
    }

    open spec fn from_spec(v: Result<T, FlovynError>) -> Self {
        WorkflowOutcome::Ready(v)
    }
}

} // verus!
