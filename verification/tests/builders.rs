use flovyn_sdk::testing::builders::{TaskTestBuilder, WorkflowTestBuilder};
use flovyn_sdk::workflow::event::EventType;

#[test]
fn test_workflow_test_builder_default() {
    let (ctx, events) = WorkflowTestBuilder::new().build();
    assert!(ctx.workflow_execution_id() != 0);
    assert!(events.is_empty());
}

#[test]
fn test_workflow_test_builder_with_input() {
    let (ctx, _) = WorkflowTestBuilder::new().input("{\"key\":\"value\"}".to_string()).build();
    assert_eq!(ctx.input_raw().as_str(), "{\"key\":\"value\"}");
}

#[test]
fn test_workflow_test_builder_with_events() {
    let (_, events) = WorkflowTestBuilder::new()
        .with_workflow_started("{}")
        .with_operation_completed("op1", "{\"result\":\"data\"}".to_string())
        .build();

    assert_eq!(events.len(), 2);
    assert_eq!(events[0].event_type(), EventType::WorkflowStarted);
    assert_eq!(events[1].event_type(), EventType::OperationCompleted);
    assert_eq!(events[0].sequence_number(), 1);
    assert_eq!(events[1].sequence_number(), 2);
    assert_eq!(events[1].get_string("operationName"), Some("op1".to_string()));
    assert_eq!(events[1].get("result"), Some("{\"result\":\"data\"}".to_string()));
}

#[test]
fn test_workflow_test_builder_with_task_events() {
    let (mut ctx, events) = WorkflowTestBuilder::new()
        .with_task_scheduled("task1", "{\"input\":\"data\"}".to_string())
        .with_task_completed("task1", "{\"output\":\"result\"}".to_string())
        .build();

    assert_eq!(events.len(), 2);
    // Not yet scheduled through the context.
    assert!(!ctx.was_task_scheduled("task1"));
    // The completion configures the context's answer.
    assert_eq!(ctx.schedule_raw("task1", "{}".to_string()).unwrap(), "{\"output\":\"result\"}");
    assert_eq!(events[0].get_string("kind"), Some("task1".to_string()));
}

#[test]
fn test_workflow_test_builder_with_timer_events() {
    let (_, events) = WorkflowTestBuilder::new()
        .with_timer_started("timer1", 60_000)
        .with_timer_fired("timer1")
        .build();

    assert_eq!(events.len(), 2);
    assert_eq!(events[0].event_type(), EventType::TimerStarted);
    assert_eq!(events[1].event_type(), EventType::TimerFired);
    assert_eq!(events[0].get("durationMs"), Some("60000".to_string()));
    assert_eq!(events[1].get_string("timerId"), Some("timer1".to_string()));
}

#[test]
fn test_workflow_test_builder_with_promise_events() {
    let (mut ctx, events) = WorkflowTestBuilder::new()
        .with_promise_created("approval")
        .with_promise_resolved("approval", "{\"approved\":true}".to_string())
        .build();

    assert_eq!(events.len(), 2);
    assert_eq!(ctx.promise_raw("approval").unwrap(), "{\"approved\":true}");
}

#[test]
fn test_workflow_test_builder_with_child_workflow() {
    let (mut ctx, events) = WorkflowTestBuilder::new()
        .with_child_workflow_initiated("child", "child-workflow", "{}".to_string())
        .with_child_workflow_completed("child-workflow", "{\"success\":true}".to_string())
        .build();

    assert_eq!(events.len(), 2);
    assert_eq!(events[0].get_string("childName"), Some("child".to_string()));
    assert_eq!(
        ctx.schedule_workflow_raw("child", "child-workflow", "{}".to_string()).unwrap(),
        "{\"success\":true}"
    );
}

#[test]
fn test_workflow_test_builder_with_cancellation() {
    let (_, events) = WorkflowTestBuilder::new().with_cancellation_requested().build();

    assert_eq!(events.len(), 1);
    assert_eq!(events[0].event_type(), EventType::CancellationRequested);
}

#[test]
fn test_workflow_test_builder_with_state_events() {
    let (_, events) = WorkflowTestBuilder::new()
        .with_state_set("counter", "42".to_string())
        .with_state_cleared("counter")
        .build();

    assert_eq!(events.len(), 2);
    assert_eq!(events[0].event_type(), EventType::StateSet);
    assert_eq!(events[1].event_type(), EventType::StateCleared);
    assert_eq!(events[0].get("value"), Some("42".to_string()));
    assert_eq!(events[0].get_string("value"), None);
}

#[test]
fn test_workflow_test_builder_string_values_and_failures() {
    let (_, events) = WorkflowTestBuilder::new()
        .with_state_set("name", "\"Ada\"".to_string())
        .with_task_failed("charge", "card \"declined\"")
        .build();

    assert_eq!(events[0].get_string("value"), Some("Ada".to_string()));
    assert_eq!(events[1].get_string("error"), Some("card \"declined\"".to_string()));
    assert_eq!(events[1].get("error"), Some("\"card \\\"declined\\\"\"".to_string()));
}

#[test]
fn test_workflow_test_builder_last_completion_wins() {
    let (mut ctx, _) = WorkflowTestBuilder::new()
        .with_task_completed("t", "1".to_string())
        .with_task_completed("t", "2".to_string())
        .org_id(7)
        .workflow_execution_id(9)
        .initial_time_millis(500)
        .build();

    assert_eq!(ctx.schedule_raw("t", "{}".to_string()).unwrap(), "2");
    assert_eq!(ctx.tenant_id(), 7);
    assert_eq!(ctx.workflow_execution_id(), 9);
    assert_eq!(ctx.current_time_millis(), 500);
}

#[test]
fn test_task_test_builder_default() {
    let ctx = TaskTestBuilder::new().build();
    assert!(ctx.task_execution_id() != 0);
    assert_eq!(ctx.attempt(), 1);
}

#[test]
fn test_task_test_builder_with_attempt() {
    let ctx = TaskTestBuilder::new().attempt(3).build();
    assert_eq!(ctx.attempt(), 3);
}

#[test]
fn test_task_test_builder_cancelled() {
    let ctx = TaskTestBuilder::new().cancelled().build();
    assert!(ctx.is_cancelled());
}

#[test]
fn test_task_test_builder_full() {
    let id: u128 = 0x1234_5678_9abc_4def_8123_456789abcdef;
    let ctx = TaskTestBuilder::new().task_execution_id(id).attempt(5).cancelled().build();

    assert_eq!(ctx.task_execution_id(), id);
    assert_eq!(ctx.attempt(), 5);
    assert!(ctx.is_cancelled());
}
