use flovyn_sdk::worker::lifecycle::{
    ConnectionInfo, RegistrationInfo, StopReason, WorkerControlError, WorkerStatus,
    WorkflowConflict,
};
use std::time::SystemTime;

#[test]
fn test_worker_status_default() {
    let status = WorkerStatus::default();
    assert_eq!(status, WorkerStatus::Initializing);
}

#[test]
fn test_worker_status_equality() {
    let status1 = WorkerStatus::Running {
        server_worker_id: Some(0),
        started_at: SystemTime::UNIX_EPOCH,
    };
    let status2 = WorkerStatus::Running {
        server_worker_id: Some(0),
        started_at: SystemTime::UNIX_EPOCH,
    };
    assert_eq!(status1, status2);
}

#[test]
fn test_worker_status_clone() {
    let status = WorkerStatus::Paused {
        reason: "maintenance".to_string(),
    };
    let cloned = status.clone();
    assert_eq!(status, cloned);
}

#[test]
fn test_stop_reason_equality() {
    assert_eq!(StopReason::Graceful, StopReason::Graceful);
    assert_eq!(
        StopReason::Error("test".to_string()),
        StopReason::Error("test".to_string())
    );
    assert_ne!(StopReason::Graceful, StopReason::Immediate);
}

#[test]
fn test_connection_info_default() {
    let info = ConnectionInfo::default();
    assert!(!info.connected);
    assert!(info.last_heartbeat.is_none());
    assert!(info.last_poll.is_none());
    assert_eq!(info.heartbeat_failures, 0);
    assert_eq!(info.poll_failures, 0);
    assert!(info.reconnect_attempt.is_none());
}

#[test]
fn test_connection_info_connected() {
    let info = ConnectionInfo::connected();
    assert!(info.connected);
}

#[test]
fn test_registration_info_has_conflicts() {
    let info = RegistrationInfo {
        worker_id: 0x1234,
        success: true,
        registered_at: SystemTime::now(),
        workflow_kinds: vec!["test".to_string()],
        task_kinds: vec![],
        workflow_conflicts: vec![],
        task_conflicts: vec![],
    };
    assert!(!info.has_conflicts());

    let info_with_conflicts = RegistrationInfo {
        workflow_conflicts: vec![WorkflowConflict {
            kind: "test".to_string(),
            reason: "conflict".to_string(),
            existing_worker_id: "worker-1".to_string(),
        }],
        ..info.clone()
    };
    assert!(info_with_conflicts.has_conflicts());
}

#[test]
fn test_worker_control_error_display() {
    let err = WorkerControlError::NotRunning;
    assert_eq!(err.to_string(), "Worker is not running");

    let err = WorkerControlError::InvalidState("Paused".to_string());
    assert_eq!(
        err.to_string(),
        "Operation not supported in current state: Paused"
    );
}

#[test]
fn worker_control_error_messages() {
    assert_eq!(WorkerControlError::ShuttingDown.to_string(), "Worker is shutting down");
    assert_eq!(WorkerControlError::Timeout.to_string(), "Operation timed out");
    assert_eq!(
        WorkerControlError::ServerError("unavailable".to_string()).to_string(),
        "Server error: unavailable"
    );
    assert_eq!(
        WorkerControlError::RejectedByHook("no".to_string()).to_string(),
        "Operation rejected by hook: no"
    );
}
