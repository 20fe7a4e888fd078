use flovyn_sdk::error::{DeterminismViolationError, FlovynError};
use flovyn_sdk::workflow::command::WorkflowCommand;
use flovyn_sdk::workflow::context::ScheduleTaskOptions;
use flovyn_sdk::workflow::context_impl::{
    duration_millis, promise_timeout_millis, SeededRandom, TaskScheduling, WorkflowContextImpl,
};
use flovyn_sdk::workflow::event::{EventType, ReplayEvent};
use std::time::Duration;
use uuid::Uuid;

const EXEC: &str = "550e8400-e29b-41d4-a716-446655440000";

fn exec_id() -> u128 {
    Uuid::parse_str(EXEC).unwrap().as_u128()
}

fn event(seq: i32, t: EventType, data: &str) -> ReplayEvent {
    ReplayEvent::from_json(seq, t, data).unwrap()
}

fn create_test_context() -> WorkflowContextImpl {
    WorkflowContextImpl::new(
        Uuid::new_v4().as_u128(),
        Uuid::new_v4().as_u128(),
        r#"{"test":true}"#.to_string(),
        vec![],
        1700000000000,
    )
}

fn create_test_context_with_task_submitter() -> WorkflowContextImpl {
    WorkflowContextImpl::new_with_task_submitter(
        Uuid::new_v4().as_u128(),
        Uuid::new_v4().as_u128(),
        r#"{"test":true}"#.to_string(),
        vec![],
        1700000000000,
        true,
    )
}

fn replay_context(events: Vec<ReplayEvent>) -> WorkflowContextImpl {
    WorkflowContextImpl::new(
        Uuid::new_v4().as_u128(),
        Uuid::new_v4().as_u128(),
        r#"{"test":true}"#.to_string(),
        events,
        1700000000000,
    )
}

#[test]
fn test_seeded_random_deterministic() {
    let mut random1 = SeededRandom::new(12345);
    let mut random2 = SeededRandom::new(12345);

    assert_eq!(random1.next_int(0, 100), random2.next_int(0, 100));
    assert_eq!(random1.next_long(0, 1000), random2.next_long(0, 1000));
    assert_eq!(random1.next_raw(), random2.next_raw());
    assert_eq!(random1.next_bool(), random2.next_bool());
}

#[test]
fn test_seeded_random_different_seeds() {
    let mut random1 = SeededRandom::new(12345);
    let mut random2 = SeededRandom::new(54321);

    let val1 = random1.next_int(0, 1000000);
    let val2 = random2.next_int(0, 1000000);
    assert_ne!(val1, val2);
}

#[test]
fn test_seeded_random_range() {
    let mut random = SeededRandom::new(42);

    for _ in 0..100 {
        let val = random.next_int(10, 20);
        assert!((10..20).contains(&val));
    }

    for _ in 0..100 {
        let val = random.next_long(100, 200);
        assert!((100..200).contains(&val));
    }
}

#[test]
fn seeded_random_xorshift_values() {
    let mut random = SeededRandom::new(1);
    // One xorshift64 step from 1: 1 ^ 1<<13 = 8193; ^ >>7 = 8257; ^ <<17 = 1082269761.
    assert_eq!(random.next_raw(), 1082269761);
    let mut random = SeededRandom::new(1);
    assert_eq!(random.next_int(0, 10), 1);
    assert_eq!(random.next_int(5, 5), 5);
    assert_eq!(random.next_long(7, 3), 7);
}

#[test]
fn test_workflow_execution_id() {
    let id = Uuid::new_v4().as_u128();
    let ctx = WorkflowContextImpl::new(id, Uuid::new_v4().as_u128(), "{}".to_string(), vec![], 0);
    assert_eq!(ctx.workflow_execution_id(), id);
}

#[test]
fn test_tenant_id() {
    let tenant_id = Uuid::new_v4().as_u128();
    let ctx = WorkflowContextImpl::new(Uuid::new_v4().as_u128(), tenant_id, "{}".to_string(), vec![], 0);
    assert_eq!(ctx.tenant_id(), tenant_id);
}

#[test]
fn test_input_raw() {
    let input = r#"{"key":"value","num":42}"#.to_string();
    let ctx = WorkflowContextImpl::new(Uuid::new_v4().as_u128(), Uuid::new_v4().as_u128(), input.clone(), vec![], 0);
    assert_eq!(ctx.input_raw(), &input);
}

#[test]
fn test_current_time_millis() {
    let ctx = create_test_context();
    assert_eq!(ctx.current_time_millis(), 1700000000000);
}

#[test]
fn test_random_uuid_deterministic() {
    let mut ctx1 = WorkflowContextImpl::new(exec_id(), Uuid::new_v4().as_u128(), "{}".to_string(), vec![], 0);
    let mut ctx2 = WorkflowContextImpl::new(exec_id(), Uuid::new_v4().as_u128(), "{}".to_string(), vec![], 0);

    assert_eq!(ctx1.random_uuid(), ctx2.random_uuid());
    assert_eq!(ctx1.random_uuid(), ctx2.random_uuid());
    assert_eq!(ctx1.random_uuid(), ctx2.random_uuid());
}

#[test]
fn random_uuid_is_v5_of_execution_id_and_counter() {
    let mut ctx = WorkflowContextImpl::new(exec_id(), 0, "{}".to_string(), vec![], 0);
    let ns = Uuid::parse_str(EXEC).unwrap();
    let expected0 = Uuid::new_v5(&ns, format!("{}:0", EXEC).as_bytes()).as_u128();
    let expected1 = Uuid::new_v5(&ns, format!("{}:1", EXEC).as_bytes()).as_u128();
    assert_eq!(ctx.random_uuid(), expected0);
    assert_eq!(ctx.random_uuid(), expected1);
}

#[test]
fn test_random_uuid_unique_sequence() {
    let mut ctx = create_test_context();

    let uuid1 = ctx.random_uuid();
    let uuid2 = ctx.random_uuid();
    let uuid3 = ctx.random_uuid();

    assert_ne!(uuid1, uuid2);
    assert_ne!(uuid2, uuid3);
    assert_ne!(uuid1, uuid3);
}

#[test]
fn test_random_deterministic() {
    let mut ctx1 = WorkflowContextImpl::new(exec_id(), Uuid::new_v4().as_u128(), "{}".to_string(), vec![], 0);
    let mut ctx2 = WorkflowContextImpl::new(exec_id(), Uuid::new_v4().as_u128(), "{}".to_string(), vec![], 0);
    assert_eq!(ctx1.random_int(0, 100), ctx2.random_int(0, 100));
}

#[test]
fn test_cancellation() {
    let mut ctx = create_test_context();
    assert!(!ctx.is_cancellation_requested());
    ctx.request_cancellation();
    assert!(ctx.is_cancellation_requested());
}

#[test]
fn test_check_cancellation_not_cancelled() {
    let ctx = create_test_context();
    assert!(ctx.check_cancellation().is_ok());
}

#[test]
fn test_check_cancellation_cancelled() {
    let mut ctx = create_test_context();
    ctx.request_cancellation();
    let result = ctx.check_cancellation();
    assert!(matches!(result, Err(FlovynError::WorkflowCancelled(_))));
}

#[test]
fn test_run_raw_records_command() {
    let mut ctx = create_test_context();
    let result = ctx.run_raw("my-operation", r#"{"data":42}"#.to_string()).unwrap();
    assert_eq!(result, r#"{"data":42}"#);

    let commands = ctx.get_commands();
    assert_eq!(commands.len(), 1);
    assert!(matches!(
        &commands[0],
        WorkflowCommand::RecordOperation { operation_name, sequence_number: 1, .. } if operation_name == "my-operation"
    ));
}

#[test]
fn test_run_raw_each_call_is_distinct_operation() {
    let mut ctx = create_test_context();
    let result1 = ctx.run_raw("op-name", r#"{"first":true}"#.to_string()).unwrap();
    let result2 = ctx.run_raw("op-name", r#"{"second":true}"#.to_string()).unwrap();
    assert_eq!(result1, r#"{"first":true}"#);
    assert_eq!(result2, r#"{"second":true}"#);
    assert_eq!(ctx.get_commands().len(), 2);
}

#[test]
fn run_raw_replays_recorded_result() {
    let events = vec![event(
        1,
        EventType::OperationCompleted,
        r#"{"operationName":"fetch","result":{"v":7}}"#,
    )];
    let mut ctx = replay_context(events);
    // The result passed in is ignored on replay.
    let r = ctx.run_raw("fetch", r#"{"v":8}"#.to_string()).unwrap();
    assert_eq!(r, r#"{"v":7}"#);
    assert!(ctx.get_commands().is_empty());
    // The next operation is beyond the history: recorded with sequence 2.
    let r = ctx.run_raw("store", "true".to_string()).unwrap();
    assert_eq!(r, "true");
    let commands = ctx.take_commands();
    assert!(matches!(
        &commands[0],
        WorkflowCommand::RecordOperation { sequence_number: 2, operation_name, result } if operation_name == "store" && result == "true"
    ));
    assert!(ctx.get_commands().is_empty());
}

#[test]
fn test_state_management() {
    let mut ctx = create_test_context();

    assert!(ctx.state_keys().unwrap().is_empty());
    assert!(ctx.get_raw("key1").unwrap().is_none());

    ctx.set_raw("key1", r#"{"value":1}"#.to_string()).unwrap();

    let value = ctx.get_raw("key1").unwrap().unwrap();
    assert_eq!(value, r#"{"value":1}"#);

    let keys = ctx.state_keys().unwrap();
    assert_eq!(keys.len(), 1);
    assert!(keys.contains(&"key1".to_string()));

    ctx.clear("key1").unwrap();
    assert!(ctx.get_raw("key1").unwrap().is_none());
}

#[test]
fn clear_all_clears_every_key_in_order() {
    let mut ctx = create_test_context();
    ctx.set_raw("a", "1".to_string()).unwrap();
    ctx.set_raw("b", "2".to_string()).unwrap();
    ctx.clear_all().unwrap();
    assert!(ctx.state_keys().unwrap().is_empty());
    let commands = ctx.get_commands();
    assert_eq!(commands.len(), 4);
    assert!(matches!(&commands[2], WorkflowCommand::ClearState { key, sequence_number: 3 } if key == "a"));
    assert!(matches!(&commands[3], WorkflowCommand::ClearState { key, sequence_number: 4 } if key == "b"));
}

#[test]
fn state_history_is_restored_and_validated() {
    let events = vec![
        event(1, EventType::StateSet, r#"{"key":"k","value":{"x":1}}"#),
        event(2, EventType::StateSet, r#"{"key":"j","value":2}"#),
        event(3, EventType::StateCleared, r#"{"key":"j"}"#),
    ];
    let mut ctx = replay_context(events);
    assert_eq!(ctx.get_raw("k").unwrap(), Some(r#"{"x":1}"#.to_string()));
    assert_eq!(ctx.get_raw("j").unwrap(), None);
    assert!(ctx.set_raw("k", r#"{"x":1}"#.to_string()).is_ok());
    match ctx.set_raw("wrong", "0".to_string()) {
        Err(FlovynError::DeterminismViolation(DeterminismViolationError::StateKeyMismatch {
            sequence,
            expected,
            actual,
        })) => {
            assert_eq!(sequence, 1);
            assert_eq!(expected, "j");
            assert_eq!(actual, "wrong");
        }
        other => panic!("Expected StateKeyMismatch, got {:?}", other),
    }
    match ctx.set_raw("j", "0".to_string()) {
        Err(FlovynError::DeterminismViolation(DeterminismViolationError::TypeMismatch {
            sequence: 2,
            expected: EventType::StateSet,
            actual: EventType::StateCleared,
        })) => {}
        other => panic!("Expected TypeMismatch, got {:?}", other),
    }
    assert!(ctx.get_commands().is_empty());
}

#[test]
fn test_schedule_raw_suspends() {
    let mut ctx = create_test_context_with_task_submitter();
    match ctx.schedule_raw("my-task", r#"{"input":true}"#.to_string()) {
        TaskScheduling::Submit(s) => {
            assert_eq!(s.task_type, "my-task");
            assert_eq!(s.options.max_retries, 3);
            assert_eq!(s.options.timeout, Duration::from_secs(300));
            let id = Uuid::new_v4().as_u128();
            let result = ctx.record_scheduled_task("my-task", s.input, s.options.priority_seconds, id);
            assert!(matches!(result, Err(FlovynError::Suspended { .. })));
        }
        TaskScheduling::Done(r) => panic!("Expected a submission, got {:?}", r),
    }
    let commands = ctx.get_commands();
    assert_eq!(commands.len(), 1);
    assert!(matches!(
        &commands[0],
        WorkflowCommand::ScheduleTask { task_type, .. } if task_type == "my-task"
    ));
}

#[test]
fn schedule_without_submitter_fails() {
    let mut ctx = create_test_context();
    match ctx.schedule_raw("my-task", "{}".to_string()) {
        TaskScheduling::Done(Err(FlovynError::Other(msg))) => {
            assert_eq!(msg, "TaskSubmitter is not configured. Cannot schedule task 'my-task'");
        }
        _ => panic!("Expected an error"),
    }
    assert!(ctx.get_commands().is_empty());
}

#[test]
fn schedule_with_options_carries_them_to_the_submission() {
    let mut ctx = create_test_context_with_task_submitter();
    let options = ScheduleTaskOptions {
        priority_seconds: Some(60),
        timeout: Some(Duration::from_secs(10)),
        queue: Some("gpu".to_string()),
        max_retries: Some(5),
    };
    match ctx.schedule_with_options_raw("t", "{}".to_string(), options) {
        TaskScheduling::Submit(s) => {
            assert_eq!(s.options.max_retries, 5);
            assert_eq!(s.options.timeout, Duration::from_secs(10));
            assert_eq!(s.options.queue, Some("gpu".to_string()));
            assert_eq!(s.options.priority_seconds, Some(60));
        }
        _ => panic!("Expected a submission"),
    }
}

#[test]
fn test_schedule_raw_returns_completed_from_replay() {
    let events = vec![
        event(
            1,
            EventType::TaskScheduled,
            r#"{"taskType":"my-task","taskExecutionId":"test-task-123","input":{"input":true}}"#,
        ),
        event(
            2,
            EventType::TaskCompleted,
            r#"{"taskExecutionId":"test-task-123","output":{"result":42}}"#,
        ),
    ];
    let mut ctx = replay_context(events);
    match ctx.schedule_raw("my-task", r#"{"input":true}"#.to_string()) {
        TaskScheduling::Done(Ok(result)) => assert_eq!(result, r#"{"result":42}"#),
        _ => panic!("Expected the recorded result"),
    }
}

#[test]
fn test_multiple_tasks_same_type_each_consume_one_event() {
    let events = vec![
        event(1, EventType::TaskScheduled, r#"{"taskType":"fast-task","taskExecutionId":"task-111","input":{"seq":1}}"#),
        event(2, EventType::TaskCompleted, r#"{"taskExecutionId":"task-111","result":{"value":"first"}}"#),
        event(3, EventType::TaskScheduled, r#"{"taskType":"fast-task","taskExecutionId":"task-222","input":{"seq":2}}"#),
        event(4, EventType::TaskCompleted, r#"{"taskExecutionId":"task-222","result":{"value":"second"}}"#),
    ];
    let mut ctx = replay_context(events);
    match ctx.schedule_raw("fast-task", "{}".to_string()) {
        TaskScheduling::Done(Ok(r)) => assert_eq!(r, r#"{"value":"first"}"#),
        _ => panic!("first"),
    }
    match ctx.schedule_raw("fast-task", "{}".to_string()) {
        TaskScheduling::Done(Ok(r)) => assert_eq!(r, r#"{"value":"second"}"#),
        _ => panic!("second"),
    }
}

#[test]
fn test_task_still_running_suspends() {
    let events = vec![event(
        1,
        EventType::TaskScheduled,
        r#"{"taskType":"slow-task","taskExecutionId":"task-999"}"#,
    )];
    let mut ctx = replay_context(events);
    match ctx.schedule_raw("slow-task", "{}".to_string()) {
        TaskScheduling::Done(Err(FlovynError::Suspended { reason })) => {
            assert_eq!(reason, "Task is still running: slow-task")
        }
        _ => panic!("Expected suspension"),
    }
}

#[test]
fn test_task_failed_returns_error() {
    let events = vec![
        event(1, EventType::TaskScheduled, r#"{"taskType":"failing-task","taskExecutionId":"task-fail"}"#),
        event(2, EventType::TaskFailed, r#"{"taskExecutionId":"task-fail","error":"Something went wrong"}"#),
    ];
    let mut ctx = replay_context(events);
    match ctx.schedule_raw("failing-task", "{}".to_string()) {
        TaskScheduling::Done(Err(FlovynError::TaskFailed(msg))) => {
            assert_eq!(msg, "Something went wrong")
        }
        _ => panic!("Expected TaskFailed"),
    }
}

#[test]
fn retried_task_latest_terminal_event_wins() {
    let events = vec![
        event(1, EventType::TaskScheduled, r#"{"taskType":"t","taskExecutionId":"x"}"#),
        event(2, EventType::TaskFailed, r#"{"taskExecutionId":"x","error":"first attempt"}"#),
        event(3, EventType::TaskCompleted, r#"{"taskExecutionId":"x","result":"ok"}"#),
    ];
    let mut ctx = replay_context(events);
    match ctx.schedule_raw("t", "{}".to_string()) {
        TaskScheduling::Done(Ok(r)) => assert_eq!(r, "\"ok\""),
        _ => panic!("Expected completion"),
    }
}

#[test]
fn test_sleep_suspends() {
    let mut ctx = create_test_context();
    let result = ctx.sleep(duration_millis(60, 0));
    assert!(matches!(result, Err(FlovynError::Suspended { .. })));
    let commands = ctx.get_commands();
    assert!(matches!(
        &commands[0],
        WorkflowCommand::StartTimer { timer_id, duration_ms: 60000, sequence_number: 1 } if timer_id == "sleep-1"
    ));
}

#[test]
fn test_sleep_returns_immediately_when_timer_fired() {
    let events = vec![
        event(1, EventType::TimerStarted, r#"{"timerId":"sleep-1","durationMs":60000}"#),
        event(2, EventType::TimerFired, r#"{"timerId":"sleep-1"}"#),
    ];
    let mut ctx = replay_context(events);
    assert!(ctx.sleep(60000).is_ok());
    assert!(ctx.get_commands().is_empty());
}

#[test]
fn sleep_timer_cancelled_is_an_error() {
    let events = vec![
        event(1, EventType::TimerStarted, r#"{"timerId":"sleep-1"}"#),
        event(2, EventType::TimerCancelled, r#"{"timerId":"sleep-1"}"#),
    ];
    let mut ctx = replay_context(events);
    match ctx.sleep(1) {
        Err(FlovynError::TimerError(msg)) => assert_eq!(msg, "Timer 'sleep-1' was cancelled"),
        other => panic!("Expected TimerError, got {:?}", other),
    }
}

#[test]
fn test_promise_suspends() {
    let mut ctx = create_test_context();
    let result = ctx.promise_raw("approval");
    assert!(matches!(result, Err(FlovynError::Suspended { .. })));
}

#[test]
fn test_promise_returns_resolved() {
    let mut ctx = create_test_context();
    ctx.resolve_promise("approval", r#"{"approved":true}"#.to_string());
    let result = ctx.promise_raw("approval").unwrap();
    assert_eq!(result, r#"{"approved":true}"#);
}

#[test]
fn test_promise_returns_immediately_when_resolved_during_replay() {
    let events = vec![
        event(1, EventType::PromiseCreated, r#"{"promiseId":"approval"}"#),
        event(2, EventType::PromiseResolved, r#"{"promiseName":"approval","value":{"approved":true}}"#),
    ];
    let mut ctx = replay_context(events);
    assert_eq!(ctx.promise_raw("approval").unwrap(), r#"{"approved":true}"#);
    assert!(ctx.get_commands().is_empty());
}

#[test]
fn test_promise_returns_error_when_rejected_during_replay() {
    let events = vec![
        event(1, EventType::PromiseCreated, r#"{"promiseId":"approval"}"#),
        event(2, EventType::PromiseRejected, r#"{"promiseName":"approval","error":"Denied"}"#),
    ];
    let mut ctx = replay_context(events);
    match ctx.promise_raw("approval") {
        Err(FlovynError::PromiseRejected { name, error }) => {
            assert_eq!(name, "approval");
            assert_eq!(error, "Denied");
        }
        other => panic!("Expected PromiseRejected, got {:?}", other),
    }
}

#[test]
fn test_promise_suspends_when_created_but_not_resolved_during_replay() {
    let events = vec![event(1, EventType::PromiseCreated, r#"{"promiseId":"approval"}"#)];
    let mut ctx = replay_context(events);
    assert!(matches!(ctx.promise_raw("approval"), Err(FlovynError::Suspended { .. })));
}

#[test]
fn promise_timeout_is_recorded() {
    let mut ctx = create_test_context();
    let _ = ctx.promise_with_timeout_raw("p", promise_timeout_millis(5, 250_000_000));
    let _ = ctx.promise_with_timeout_raw("q", promise_timeout_millis(u64::MAX, 0));
    let commands = ctx.get_commands();
    assert!(matches!(&commands[0], WorkflowCommand::CreatePromise { timeout_ms: Some(5250), .. }));
    assert!(matches!(&commands[1], WorkflowCommand::CreatePromise { timeout_ms: None, .. }));
}

#[test]
fn test_schedule_workflow_suspends() {
    let mut ctx = create_test_context();
    let result = ctx.schedule_workflow_raw("child-1", "child-workflow", "{}".to_string());
    assert!(matches!(result, Err(FlovynError::Suspended { .. })));
    let commands = ctx.get_commands();
    assert!(matches!(
        &commands[0],
        WorkflowCommand::ScheduleChildWorkflow { name, kind: Some(k), task_queue, priority_seconds: 0, .. }
            if name == "child-1" && k == "child-workflow" && task_queue.is_empty()
    ));
}

#[test]
fn test_schedule_workflow_returns_resolved() {
    let mut ctx = create_test_context();
    ctx.resolve_child_workflow("child-1", r#"{"done":true}"#.to_string());
    let result = ctx.schedule_workflow_raw("child-1", "child-workflow", "{}".to_string());
    assert_eq!(result.unwrap(), r#"{"done":true}"#);
}

#[test]
fn test_schedule_workflow_returns_immediately_when_completed_during_replay() {
    let events = vec![
        event(1, EventType::ChildWorkflowInitiated, r#"{"childExecutionName":"child-1","childWorkflowKind":"child-workflow"}"#),
        event(2, EventType::ChildWorkflowCompleted, r#"{"childExecutionName":"child-1","output":{"r":1}}"#),
    ];
    let mut ctx = replay_context(events);
    assert_eq!(
        ctx.schedule_workflow_raw("child-1", "child-workflow", "{}".to_string()).unwrap(),
        r#"{"r":1}"#
    );
}

#[test]
fn test_schedule_workflow_returns_error_when_failed_during_replay() {
    let events = vec![
        event(1, EventType::ChildWorkflowInitiated, r#"{"childExecutionName":"child-1"}"#),
        event(2, EventType::ChildWorkflowFailed, r#"{"childExecutionName":"child-1","error":"boom","childworkflowExecutionId":"abc"}"#),
    ];
    let mut ctx = replay_context(events);
    match ctx.schedule_workflow_raw("child-1", "any-kind", "{}".to_string()) {
        Err(FlovynError::ChildWorkflowFailed { execution_id, name, error }) => {
            assert_eq!(execution_id, "abc");
            assert_eq!(name, "child-1");
            assert_eq!(error, "boom");
        }
        other => panic!("Expected ChildWorkflowFailed, got {:?}", other),
    }
}

#[test]
fn test_sequence_based_task_type_mismatch_violation() {
    let events = vec![event(1, EventType::TaskScheduled, r#"{"taskType":"task-A","taskExecutionId":"t1"}"#)];
    let mut ctx = replay_context(events);
    match ctx.schedule_raw("task-B", "{}".to_string()) {
        TaskScheduling::Done(Err(FlovynError::DeterminismViolation(
            DeterminismViolationError::TaskTypeMismatch { sequence, expected, actual },
        ))) => {
            assert_eq!(sequence, 0);
            assert_eq!(expected, "task-A");
            assert_eq!(actual, "task-B");
        }
        _ => panic!("Expected TaskTypeMismatch"),
    }
}

#[test]
fn test_sequence_based_operation_name_mismatch_violation() {
    let events = vec![event(1, EventType::OperationCompleted, r#"{"operationName":"op-A","result":1}"#)];
    let mut ctx = replay_context(events);
    match ctx.run_raw("op-B", "1".to_string()) {
        Err(FlovynError::DeterminismViolation(DeterminismViolationError::OperationNameMismatch {
            sequence,
            expected,
            actual,
        })) => {
            assert_eq!(sequence, 0);
            assert_eq!(expected, "op-A");
            assert_eq!(actual, "op-B");
        }
        other => panic!("Expected OperationNameMismatch, got {:?}", other),
    }
}

#[test]
fn test_sequence_based_timer_id_mismatch_violation() {
    let events = vec![event(1, EventType::TimerStarted, r#"{"timerId":"custom-timer"}"#)];
    let mut ctx = replay_context(events);
    match ctx.sleep(1000) {
        Err(FlovynError::DeterminismViolation(DeterminismViolationError::TimerIdMismatch {
            sequence,
            expected,
            actual,
        })) => {
            assert_eq!(sequence, 0);
            assert_eq!(expected, "custom-timer");
            assert_eq!(actual, "sleep-1");
        }
        other => panic!("Expected TimerIdMismatch, got {:?}", other),
    }
}

#[test]
fn test_sequence_based_promise_name_mismatch_violation() {
    let events = vec![event(1, EventType::PromiseCreated, r#"{"promiseId":"promise-A"}"#)];
    let mut ctx = replay_context(events);
    match ctx.promise_raw("promise-B") {
        Err(FlovynError::DeterminismViolation(DeterminismViolationError::PromiseNameMismatch {
            expected,
            actual,
            ..
        })) => {
            assert_eq!(expected, "promise-A");
            assert_eq!(actual, "promise-B");
        }
        other => panic!("Expected PromiseNameMismatch, got {:?}", other),
    }
}

#[test]
fn test_sequence_based_child_workflow_name_mismatch_violation() {
    let events = vec![event(1, EventType::ChildWorkflowInitiated, r#"{"childExecutionName":"child-A"}"#)];
    let mut ctx = replay_context(events);
    match ctx.schedule_workflow_raw("child-B", "kind", "{}".to_string()) {
        Err(FlovynError::DeterminismViolation(DeterminismViolationError::ChildWorkflowMismatch {
            field,
            expected,
            actual,
            ..
        })) => {
            assert_eq!(field, "name");
            assert_eq!(expected, "child-A");
            assert_eq!(actual, "child-B");
        }
        other => panic!("Expected ChildWorkflowMismatch, got {:?}", other),
    }
}

#[test]
fn test_sequence_based_child_workflow_kind_mismatch_violation() {
    let events = vec![event(
        1,
        EventType::ChildWorkflowInitiated,
        r#"{"childExecutionName":"child-1","childWorkflowKind":"kind-A"}"#,
    )];
    let mut ctx = replay_context(events);
    match ctx.schedule_workflow_raw("child-1", "kind-B", "{}".to_string()) {
        Err(FlovynError::DeterminismViolation(DeterminismViolationError::ChildWorkflowMismatch {
            field,
            expected,
            actual,
            ..
        })) => {
            assert_eq!(field, "kind");
            assert_eq!(expected, "kind-A");
            assert_eq!(actual, "kind-B");
        }
        other => panic!("Expected ChildWorkflowMismatch, got {:?}", other),
    }
}

#[test]
fn test_sequence_based_interleaved_operations_replay_correctly() {
    let events = vec![
        event(1, EventType::OperationCompleted, r#"{"operationName":"op1","result":"r1"}"#),
        event(2, EventType::TaskScheduled, r#"{"taskType":"t1","taskExecutionId":"id1"}"#),
        event(3, EventType::TaskCompleted, r#"{"taskExecutionId":"id1","result":"t1-done"}"#),
        event(4, EventType::OperationCompleted, r#"{"operationName":"op2","result":"r2"}"#),
        event(5, EventType::TimerStarted, r#"{"timerId":"sleep-1"}"#),
        event(6, EventType::TimerFired, r#"{"timerId":"sleep-1"}"#),
    ];
    let mut ctx = replay_context(events);
    assert_eq!(ctx.run_raw("op1", "x".to_string()).unwrap(), "\"r1\"");
    match ctx.schedule_raw("t1", "{}".to_string()) {
        TaskScheduling::Done(Ok(r)) => assert_eq!(r, "\"t1-done\""),
        _ => panic!("task"),
    }
    assert_eq!(ctx.run_raw("op2", "x".to_string()).unwrap(), "\"r2\"");
    assert!(ctx.sleep(5).is_ok());
    assert!(ctx.get_commands().is_empty());
}

#[test]
fn test_sequence_based_new_commands_beyond_replay_history() {
    let events = vec![event(1, EventType::OperationCompleted, r#"{"operationName":"op1","result":1}"#)];
    let mut ctx = replay_context(events);
    assert_eq!(ctx.run_raw("op1", "0".to_string()).unwrap(), "1");
    assert_eq!(ctx.run_raw("op2", "2".to_string()).unwrap(), "2");
    let commands = ctx.get_commands();
    assert_eq!(commands.len(), 1);
    assert!(matches!(&commands[0], WorkflowCommand::RecordOperation { sequence_number: 2, operation_name, .. } if operation_name == "op2"));
}

#[test]
fn telemetry_records_a_span_for_new_operations() {
    let mut ctx = WorkflowContextImpl::new_with_telemetry(exec_id(), 0, "{}".to_string(), vec![], 0, false, true);
    ctx.run_raw("op", "1".to_string()).unwrap();
    let spans = ctx.take_recorded_spans();
    assert_eq!(spans.len(), 1);
    assert_eq!(spans[0].span_type, "run.execute");
    assert_eq!(spans[0].workflow_id, EXEC);
    assert!(!spans[0].is_error);
    assert!(ctx.take_recorded_spans().is_empty());
    let mut quiet = create_test_context();
    quiet.run_raw("op", "1".to_string()).unwrap();
    assert!(quiet.take_recorded_spans().is_empty());
}

#[test]
fn fire_timer_and_resolve_task_are_in_process_only() {
    let mut ctx = create_test_context();
    ctx.resolve_task("t", "1".to_string());
    ctx.fire_timer("sleep-1");
    assert!(ctx.get_commands().is_empty());
}

#[test]
fn test_replay_draws_same_values_as_first_run() {
    let mut first = WorkflowContextImpl::new(exec_id(), 1, "{}".to_string(), vec![], 1700000000000);
    let mut replay = WorkflowContextImpl::new(
        exec_id(),
        2,
        "{\"other\":true}".to_string(),
        vec![
            event(1, EventType::WorkflowStarted, "{}"),
            event(2, EventType::OperationCompleted, "{\"operationName\":\"op\",\"result\":1}"),
        ],
        1700000000000,
    );
    assert_eq!(first.current_time_millis(), replay.current_time_millis());
    assert_eq!(first.random_uuid(), replay.random_uuid());
    assert_eq!(first.random_uuid(), replay.random_uuid());
    assert_eq!(first.random_int(0, 1000), replay.random_int(0, 1000));
    assert_eq!(first.random_raw(), replay.random_raw());
}
