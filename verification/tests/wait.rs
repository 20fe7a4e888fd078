use flovyn_sdk::client::wait::{
    completion_outcome, find_promise_id, promise_id_from_history, wait_timeout_error, HistoryEvent,
};
use flovyn_sdk::error::FlovynError;

fn ev(t: &str, payload: &str) -> HistoryEvent {
    HistoryEvent { event_type: t.to_string(), payload: payload.to_string() }
}

#[test]
fn test_completion_outcome_running() {
    let events = vec![ev("WORKFLOW_STARTED", "{}"), ev("TASK_SCHEDULED", "{\"kind\":\"a\"}")];
    assert!(completion_outcome(&events).is_none());
}

#[test]
fn test_completion_outcome_completed() {
    let events = vec![ev("WORKFLOW_STARTED", "{}"), ev("WORKFLOW_COMPLETED", "{\"output\":{\"n\":1}}")];
    assert_eq!(completion_outcome(&events).unwrap().unwrap(), "{\"n\":1}");
    let events = vec![ev("WORKFLOW_COMPLETED", "{}")];
    assert_eq!(completion_outcome(&events).unwrap().unwrap(), "null");
}

#[test]
fn test_completion_outcome_failed_and_cancelled() {
    let events = vec![ev("WORKFLOW_FAILED", "{\"error\":\"bad input\"}")];
    match completion_outcome(&events) {
        Some(Err(FlovynError::WorkflowFailed(m))) => assert_eq!(m, "bad input"),
        _ => panic!("expected a failure"),
    }
    let events = vec![ev("WORKFLOW_FAILED", "{\"error\":3}")];
    match completion_outcome(&events) {
        Some(Err(FlovynError::WorkflowFailed(m))) => assert_eq!(m, "Unknown error"),
        _ => panic!("expected a failure"),
    }
    let events = vec![ev("WORKFLOW_CANCELLED", "{}"), ev("WORKFLOW_COMPLETED", "{}")];
    match completion_outcome(&events) {
        Some(Err(FlovynError::WorkflowCancelled(m))) => assert_eq!(m, "Cancelled"),
        _ => panic!("expected a cancellation"),
    }
}

#[test]
fn test_wait_timeout_error() {
    let e = wait_timeout_error(1, "30s");
    assert_eq!(e.to_string(), "Timeout: Workflow 00000000-0000-0000-0000-000000000001 did not complete within 30s");
}

#[test]
fn test_find_promise_id() {
    let events = vec![
        ev("WORKFLOW_STARTED", "{}"),
        ev("PROMISE_CREATED", "{\"promiseName\":\"other\",\"promiseId\":\"p-0\"}"),
        ev("PROMISE_CREATED", "{\"promiseName\":\"approval\"}"),
        ev("PROMISE_CREATED", "{\"promiseName\":\"approval\",\"promiseId\":\"p-1\"}"),
    ];
    assert_eq!(find_promise_id(&events, "approval"), Some("p-1".to_string()));
    assert_eq!(find_promise_id(&events, "missing"), None);
}

#[test]
fn a_promise_in_the_history_gives_its_id() {
    let events = vec![ev("PROMISE_CREATED", r#"{"promiseName":"approval","promiseId":"p-1"}"#)];
    assert_eq!(promise_id_from_history(&events, 1, "approval").ok().unwrap(), "p-1");
}

#[test]
fn a_promise_missing_from_the_history_is_not_found() {
    let events = vec![ev("PROMISE_CREATED", r#"{"promiseName":"other","promiseId":"p-1"}"#)];
    match promise_id_from_history(&events, 1, "approval") {
        Err(FlovynError::PromiseNotFound(m)) => assert_eq!(
            m,
            "Promise 'approval' not found in workflow 00000000-0000-0000-0000-000000000001"
        ),
        _ => panic!("expected the promise not to be found"),
    }
    assert_eq!(
        FlovynError::PromiseNotFound("x".to_string()).to_string(),
        "Promise not found: x"
    );
}
