use flovyn_sdk::error::{DeterminismViolationError, FlovynError};
use flovyn_sdk::workflow::event::EventType;

#[test]
fn test_flovyn_error_display() {
    let err = FlovynError::Suspended {
        reason: "Waiting for task".to_string(),
    };
    assert_eq!(err.to_string(), "Workflow suspended: Waiting for task");

    let err = FlovynError::TaskCancelled;
    assert_eq!(err.to_string(), "Task cancelled");

    let err = FlovynError::DeterminismViolation(DeterminismViolationError::TypeMismatch {
        sequence: 5,
        expected: EventType::OperationCompleted,
        actual: EventType::TaskScheduled,
    });
    assert!(err.to_string().contains("Type mismatch at sequence 5"));
}

#[test]
fn test_determinism_violation_error_display() {
    let err = DeterminismViolationError::TypeMismatch {
        sequence: 1,
        expected: EventType::OperationCompleted,
        actual: EventType::TaskScheduled,
    };
    assert!(err.to_string().contains("Type mismatch at sequence 1"));

    let err = DeterminismViolationError::OperationNameMismatch {
        sequence: 2,
        expected: "fetch-user".to_string(),
        actual: "fetch-order".to_string(),
    };
    assert!(err.to_string().contains("Operation name mismatch"));
    assert!(err.to_string().contains("fetch-user"));
    assert!(err.to_string().contains("fetch-order"));
}

#[test]
fn test_result_type() {
    fn returns_ok() -> Result<i32, FlovynError> {
        Ok(42)
    }

    fn returns_err() -> Result<i32, FlovynError> {
        Err(FlovynError::Other("test error".to_string()))
    }

    assert_eq!(returns_ok().unwrap(), 42);
    assert!(returns_err().is_err());
}

#[test]
fn test_timeout_error_format() {
    let err = FlovynError::Timeout("Operation timed out".to_string());
    assert_eq!(err.to_string(), "Timeout: Operation timed out");
}

#[test]
fn test_workflow_failed_error_format() {
    let err = FlovynError::WorkflowFailed("Validation failed".to_string());
    assert_eq!(err.to_string(), "Workflow failed: Validation failed");
}

#[test]
fn test_workflow_cancelled_error_format() {
    let err = FlovynError::WorkflowCancelled("User requested cancellation".to_string());
    assert_eq!(
        err.to_string(),
        "Workflow cancelled: User requested cancellation"
    );
}

#[test]
fn error_messages_of_every_variant() {
    let cases: Vec<(FlovynError, &str)> = vec![
        (FlovynError::TaskFailed("a".into()), "Task failed: a"),
        (
            FlovynError::ChildWorkflowFailed {
                execution_id: "e".into(),
                name: "n".into(),
                error: "x".into(),
            },
            "Child workflow failed: n (e): x",
        ),
        (FlovynError::NonRetryable("a".into()), "Non-retryable error: a"),
        (FlovynError::Grpc("a".into()), "gRPC error: a"),
        (FlovynError::Serialization("a".into()), "Serialization error: a"),
        (FlovynError::Io("a".into()), "IO error: a"),
        (FlovynError::WorkflowNotFound("a".into()), "Workflow not found: a"),
        (FlovynError::TaskNotFound("a".into()), "Task not found: a"),
        (FlovynError::InvalidConfiguration("a".into()), "Invalid configuration: a"),
        (FlovynError::PromiseTimeout { name: "p".into() }, "Promise timeout: p"),
        (
            FlovynError::PromiseRejected { name: "p".into(), error: "no".into() },
            "Promise rejected: p: no",
        ),
        (FlovynError::TimerError("a".into()), "Timer error: a"),
        (FlovynError::InvalidInput("a".into()), "Invalid input: a"),
        (FlovynError::NetworkError("a".into()), "Network error: a"),
        (FlovynError::Other("plain".into()), "plain"),
    ];
    for (e, m) in cases {
        assert_eq!(e.to_string(), m);
    }
}

#[test]
fn violation_messages() {
    let v = DeterminismViolationError::TaskTypeMismatch {
        sequence: 3,
        expected: "a".into(),
        actual: "b".into(),
    };
    assert_eq!(v.to_string(), "Task type mismatch at sequence 3: expected 'a', got 'b'");
    let v = DeterminismViolationError::TypeMismatch {
        sequence: 0,
        expected: EventType::StateSet,
        actual: EventType::StateCleared,
    };
    assert_eq!(
        v.to_string(),
        "Type mismatch at sequence 0: expected 'STATE_SET', got 'STATE_CLEARED'"
    );
}
