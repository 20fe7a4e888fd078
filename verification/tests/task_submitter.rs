use flovyn_sdk::error::FlovynError;
use flovyn_sdk::workflow::context::ScheduleTaskOptions;
use flovyn_sdk::workflow::task_submitter::{NoOpTaskSubmitter, TaskSubmitOptions};
use std::time::Duration;

#[test]
fn test_schedule_task_options_default() {
    let options = ScheduleTaskOptions::default();
    assert!(options.priority_seconds.is_none());
    assert!(options.timeout.is_none());
}

#[test]
fn test_schedule_task_options_with_values() {
    let options = ScheduleTaskOptions {
        priority_seconds: Some(60),
        timeout: Some(Duration::from_secs(300)),
        queue: Some("custom-queue".to_string()),
        max_retries: Some(5),
    };
    assert_eq!(options.priority_seconds, Some(60));
    assert_eq!(options.timeout, Some(Duration::from_secs(300)));
    assert_eq!(options.queue, Some("custom-queue".to_string()));
    assert_eq!(options.max_retries, Some(5));
}

#[test]
fn noop_submitter_fails_with_task_type() {
    let r = NoOpTaskSubmitter.submit_task(1, 2, "resize", "{}".to_string(), TaskSubmitOptions::default());
    match r {
        Err(FlovynError::Other(msg)) => {
            assert_eq!(msg, "TaskSubmitter is not configured. Cannot schedule task 'resize'")
        }
        _ => panic!("Expected an error"),
    }
}

#[test]
fn submit_options_defaults() {
    let o = TaskSubmitOptions::from_schedule_options(ScheduleTaskOptions::default());
    assert_eq!(o.max_retries, 3);
    assert_eq!(o.timeout, Duration::from_secs(300));
    assert!(o.queue.is_none());
    assert!(o.priority_seconds.is_none());
    let d = TaskSubmitOptions::default();
    assert_eq!(d.max_retries, 0);
    assert_eq!(d.timeout, Duration::from_secs(0));
}
