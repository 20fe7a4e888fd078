use flovyn_sdk::worker::control::{check_pause, check_resume, pause_step, resume_step};
use flovyn_sdk::worker::lifecycle::{StopReason, WorkerControlError, WorkerStatus};
use std::time::SystemTime;

fn running() -> WorkerStatus {
    WorkerStatus::Running { server_worker_id: Some(7), started_at: SystemTime::UNIX_EPOCH }
}

#[test]
fn a_running_worker_pauses_with_the_hooks_consent() {
    let mut status = running();
    assert!(check_pause(&status).is_ok());
    assert_eq!(pause_step(&mut status, true, "maintenance"), Ok(()));
    assert_eq!(status, WorkerStatus::Paused { reason: "maintenance".to_string() });
}

#[test]
fn a_refused_pause_leaves_the_status() {
    let mut status = running();
    assert_eq!(
        pause_step(&mut status, false, "maintenance"),
        Err(WorkerControlError::RejectedByHook("pause".to_string()))
    );
    assert_eq!(status, running());
}

#[test]
fn only_a_running_worker_pauses() {
    let mut paused = WorkerStatus::Paused { reason: "x".to_string() };
    assert_eq!(
        pause_step(&mut paused, true, "again"),
        Err(WorkerControlError::InvalidState("Paused".to_string()))
    );
    assert_eq!(paused, WorkerStatus::Paused { reason: "x".to_string() });

    let mut stopped = WorkerStatus::Stopped { stopped_at: SystemTime::UNIX_EPOCH, reason: StopReason::Graceful };
    assert_eq!(check_pause(&stopped), Err(WorkerControlError::NotRunning));
    assert_eq!(pause_step(&mut stopped, true, "x"), Err(WorkerControlError::NotRunning));

    let shutting = WorkerStatus::ShuttingDown { requested_at: SystemTime::UNIX_EPOCH, in_flight_count: 0 };
    assert_eq!(check_pause(&shutting), Err(WorkerControlError::ShuttingDown));
}

#[test]
fn a_paused_worker_resumes_with_the_hooks_consent() {
    let mut status = WorkerStatus::Paused { reason: "x".to_string() };
    assert!(check_resume(&status).is_ok());
    let now = SystemTime::UNIX_EPOCH;
    assert_eq!(resume_step(&mut status, true, Some(7), now), Ok(()));
    assert_eq!(status, running());
}

#[test]
fn only_a_paused_worker_resumes() {
    let mut status = running();
    assert_eq!(
        resume_step(&mut status, true, Some(7), SystemTime::UNIX_EPOCH),
        Err(WorkerControlError::InvalidState("Running".to_string()))
    );
    let mut paused = WorkerStatus::Paused { reason: "x".to_string() };
    assert_eq!(
        resume_step(&mut paused, false, None, SystemTime::UNIX_EPOCH),
        Err(WorkerControlError::RejectedByHook("resume".to_string()))
    );
    assert_eq!(paused, WorkerStatus::Paused { reason: "x".to_string() });
}
