use flovyn_sdk::error::{DeterminismViolationError, FlovynError};
use flovyn_sdk::workflow::async_ops::AsyncStart;
use flovyn_sdk::workflow::command::WorkflowCommand;
use flovyn_sdk::workflow::context_impl::WorkflowContextImpl;
use flovyn_sdk::workflow::event::{EventType, ReplayEvent};
use uuid::Uuid;

fn event(seq: i32, t: EventType, data: &str) -> ReplayEvent {
    ReplayEvent::from_json(seq, t, data).unwrap()
}

fn create_test_context() -> WorkflowContextImpl {
    WorkflowContextImpl::new(
        Uuid::new_v4().as_u128(),
        Uuid::new_v4().as_u128(),
        r#"{"test":true}"#.to_string(),
        vec![],
        1700000000000,
    )
}

fn create_test_context_with_task_submitter() -> WorkflowContextImpl {
    WorkflowContextImpl::new_with_task_submitter(
        Uuid::new_v4().as_u128(),
        Uuid::new_v4().as_u128(),
        r#"{"test":true}"#.to_string(),
        vec![],
        1700000000000,
        true,
    )
}

fn replay_context(events: Vec<ReplayEvent>) -> WorkflowContextImpl {
    WorkflowContextImpl::new_with_task_submitter(
        Uuid::new_v4().as_u128(),
        Uuid::new_v4().as_u128(),
        "{}".to_string(),
        events,
        1700000000000,
        true,
    )
}

fn seq_of<I, T>(f: &AsyncStart<I, T>) -> u32 {
    match f {
        AsyncStart::Replayed { seq, .. }
        | AsyncStart::Pending { seq, .. }
        | AsyncStart::Failed { seq, .. } => *seq,
    }
}

fn settled<I, T>(f: AsyncStart<I, T>) -> Result<T, FlovynError> {
    match f {
        AsyncStart::Replayed { result, .. } => result,
        AsyncStart::Failed { error, .. } => Err(error),
        AsyncStart::Pending { .. } => panic!("the future is still pending"),
    }
}

#[test]
fn test_schedule_async_assigns_sequence_at_creation() {
    let mut ctx = create_test_context_with_task_submitter();
    let future1 = ctx.schedule_async_raw("task-a", "{}".to_string());
    let future2 = ctx.schedule_async_raw("task-b", "{}".to_string());
    assert_eq!(seq_of(&future1), 0);
    assert_eq!(seq_of(&future2), 1);
}

#[test]
fn test_schedule_async_multiple_tasks_get_sequential_ids() {
    let mut ctx = create_test_context_with_task_submitter();
    let futures: Vec<_> = (0..5)
        .map(|i| ctx.schedule_async_raw("same-task", format!("{{\"i\":{}}}", i)))
        .collect();
    for (i, f) in futures.iter().enumerate() {
        assert_eq!(seq_of(f), i as u32, "Future {} has wrong sequence", i);
    }
}

#[test]
fn test_sleep_async_returns_timer_future() {
    let mut ctx = create_test_context();
    let timer = ctx.sleep_async(60_000);
    assert_eq!(seq_of(&timer), 0);
    match timer {
        AsyncStart::Pending { id, .. } => assert!(!id.is_empty()),
        _ => panic!("expected a pending timer"),
    }
}

#[test]
fn test_async_methods_record_commands_immediately() {
    let mut ctx = create_test_context_with_task_submitter();
    assert!(ctx.get_commands().is_empty());

    let _task1 = ctx.schedule_async_raw("task-1", "{}".to_string());
    assert_eq!(ctx.get_commands().len(), 1);

    let _task2 = ctx.schedule_async_raw("task-2", "{}".to_string());
    assert_eq!(ctx.get_commands().len(), 2);

    let _timer = ctx.sleep_async(30_000);
    assert_eq!(ctx.get_commands().len(), 3);

    let commands = ctx.get_commands();
    assert!(matches!(
        &commands[0],
        WorkflowCommand::ScheduleTask { task_type, .. } if task_type == "task-1"
    ));
    assert!(matches!(
        &commands[1],
        WorkflowCommand::ScheduleTask { task_type, .. } if task_type == "task-2"
    ));
    assert!(matches!(&commands[2], WorkflowCommand::StartTimer { .. }));
}

#[test]
fn test_parallel_tasks_match_by_per_type_sequence() {
    let replay_events = vec![
        event(1, EventType::TaskScheduled, r#"{"taskType":"task-a","taskExecutionId":"exec-a-0"}"#),
        event(2, EventType::TaskCompleted, r#"{"taskExecutionId":"exec-a-0","output":{"result":"a0"}}"#),
        event(3, EventType::TaskScheduled, r#"{"taskType":"task-b","taskExecutionId":"exec-b-0"}"#),
        event(4, EventType::TaskCompleted, r#"{"taskExecutionId":"exec-b-0","output":{"result":"b0"}}"#),
        event(5, EventType::TaskScheduled, r#"{"taskType":"task-a","taskExecutionId":"exec-a-1"}"#),
        event(6, EventType::TaskCompleted, r#"{"taskExecutionId":"exec-a-1","output":{"result":"a1"}}"#),
    ];
    let mut ctx = replay_context(replay_events);
    let future_a0 = ctx.schedule_async_raw("task-a", "{}".to_string());
    let future_b0 = ctx.schedule_async_raw("task-b", "{}".to_string());
    let future_a1 = ctx.schedule_async_raw("task-a", "{}".to_string());
    assert_eq!(seq_of(&future_a0), 0);
    assert_eq!(seq_of(&future_b0), 1);
    assert_eq!(seq_of(&future_a1), 2);
}

#[test]
fn test_parallel_tasks_and_timer_independent_matching() {
    let replay_events = vec![
        event(1, EventType::TaskScheduled, r#"{"taskType":"my-task","taskExecutionId":"task-0"}"#),
        event(2, EventType::TaskCompleted, r#"{"taskExecutionId":"task-0","output":{"value":1}}"#),
        event(3, EventType::TimerStarted, r#"{"timerId":"timer-0","durationMs":1000}"#),
        event(4, EventType::TimerFired, r#"{"timerId":"timer-0"}"#),
        event(5, EventType::TaskScheduled, r#"{"taskType":"my-task","taskExecutionId":"task-1"}"#),
        event(6, EventType::TaskCompleted, r#"{"taskExecutionId":"task-1","output":{"value":2}}"#),
    ];
    let mut ctx = replay_context(replay_events);
    let task0 = ctx.schedule_async_raw("my-task", "{}".to_string());
    let timer0 = ctx.sleep_async(1000);
    let task1 = ctx.schedule_async_raw("my-task", "{}".to_string());
    assert_eq!(seq_of(&task0), 0);
    assert_eq!(seq_of(&task1), 1);
    assert_eq!(seq_of(&timer0), 0);
}

#[test]
fn a_timer_recorded_under_another_id_fails_at_once() {
    let mut ctx = replay_context(vec![
        event(1, EventType::TimerStarted, r#"{"timerId":"timer-0","durationMs":1000}"#),
    ]);
    assert!(matches!(
        ctx.sleep_async(1000),
        AsyncStart::Failed {
            seq: 0,
            error: FlovynError::DeterminismViolation(DeterminismViolationError::TimerIdMismatch { .. })
        }
    ));
}

#[test]
fn test_parallel_completion_order_does_not_affect_replay() {
    let slow_exec_id = "11111111-1111-1111-1111-111111111111";
    let fast_exec_id = "22222222-2222-2222-2222-222222222222";
    let replay_events = vec![
        event(1, EventType::TaskScheduled, &format!(r#"{{"taskType":"slow-task","taskExecutionId":"{}"}}"#, slow_exec_id)),
        event(2, EventType::TaskScheduled, &format!(r#"{{"taskType":"fast-task","taskExecutionId":"{}"}}"#, fast_exec_id)),
        event(3, EventType::TaskCompleted, &format!(r#"{{"taskExecutionId":"{}","output":{{"result":"fast"}}}}"#, fast_exec_id)),
        event(4, EventType::TaskCompleted, &format!(r#"{{"taskExecutionId":"{}","output":{{"result":"slow"}}}}"#, slow_exec_id)),
    ];
    let mut ctx = replay_context(replay_events);
    let slow_future = ctx.schedule_async_raw("slow-task", "{}".to_string());
    let fast_future = ctx.schedule_async_raw("fast-task", "{}".to_string());
    assert_eq!(settled(fast_future).unwrap(), r#"{"result":"fast"}"#);
    assert_eq!(settled(slow_future).unwrap(), r#"{"result":"slow"}"#);
}

#[test]
fn test_mixed_parallel_operations_replay_correctly() {
    let fetch_exec_id = "33333333-3333-3333-3333-333333333333";
    let replay_events = vec![
        event(1, EventType::TaskScheduled, &format!(r#"{{"taskType":"fetch-data","taskExecutionId":"{}"}}"#, fetch_exec_id)),
        event(2, EventType::TimerStarted, r#"{"timerId":"sleep-1","durationMs":5000}"#),
        event(3, EventType::OperationCompleted, r#"{"operationName":"compute","result":{"computed":true}}"#),
        event(4, EventType::TaskCompleted, &format!(r#"{{"taskExecutionId":"{}","output":{{"data":"fetched"}}}}"#, fetch_exec_id)),
        event(5, EventType::TimerFired, r#"{"timerId":"sleep-1"}"#),
    ];
    let mut ctx = replay_context(replay_events);
    let task = ctx.schedule_async_raw("fetch-data", "{}".to_string());
    let timer = ctx.sleep_async(5000);
    let op = ctx.run_async_raw("compute", r#"{"computed":true}"#.to_string());

    assert_eq!(settled(op).unwrap(), r#"{"computed":true}"#);
    assert_eq!(settled(task).unwrap(), r#"{"data":"fetched"}"#);
    assert!(settled(timer).unwrap());
    assert!(ctx.get_commands().is_empty());
}

#[test]
fn a_new_child_workflow_is_recorded_and_pending() {
    let mut ctx = create_test_context();
    let f = ctx.schedule_workflow_async_raw("payment-1", "payment-workflow", "{}".to_string());
    let id = match f {
        AsyncStart::Pending { seq, id } => {
            assert_eq!(seq, 0);
            id
        }
        _ => panic!("expected a pending child workflow"),
    };
    let commands = ctx.get_commands();
    assert_eq!(commands.len(), 1);
    match &commands[0] {
        WorkflowCommand::ScheduleChildWorkflow { name, kind, child_execution_id, .. } => {
            assert_eq!(name, "payment-1");
            assert_eq!(kind.as_deref(), Some("payment-workflow"));
            assert_eq!(*child_execution_id, id);
        }
        other => panic!("unexpected command {:?}", other),
    }
}

#[test]
fn a_replayed_child_workflow_keeps_its_recorded_id() {
    let child = "44444444-4444-4444-4444-444444444444";
    let mut ctx = replay_context(vec![event(
        1,
        EventType::ChildWorkflowInitiated,
        &format!(r#"{{"childExecutionName":"c","childWorkflowKind":"k","childExecutionId":"{}"}}"#, child),
    )]);
    match ctx.schedule_workflow_async_raw("c", "k", "{}".to_string()) {
        AsyncStart::Pending { id, .. } => assert_eq!(id, Uuid::parse_str(child).unwrap().as_u128()),
        _ => panic!("expected a pending child workflow"),
    }
    assert!(ctx.get_commands().is_empty());
}

#[test]
fn a_completed_child_workflow_settles_its_future() {
    let mut ctx = replay_context(vec![
        event(1, EventType::ChildWorkflowInitiated, r#"{"childExecutionName":"c","childWorkflowKind":"k"}"#),
        event(2, EventType::ChildWorkflowCompleted, r#"{"childExecutionName":"c","output":{"ok":1}}"#),
    ]);
    match ctx.schedule_workflow_async_raw("c", "k", "{}".to_string()) {
        AsyncStart::Replayed { id, result, .. } => {
            assert_eq!(id, 0);
            assert_eq!(result.unwrap(), r#"{"ok":1}"#);
        }
        _ => panic!("expected a settled child workflow"),
    }
}

#[test]
fn a_child_workflow_of_another_kind_fails_at_once() {
    let mut ctx = replay_context(vec![event(
        1,
        EventType::ChildWorkflowInitiated,
        r#"{"childExecutionName":"c","childWorkflowKind":"k"}"#,
    )]);
    assert!(matches!(
        ctx.schedule_workflow_async_raw("c", "other", "{}".to_string()),
        AsyncStart::Failed {
            error: FlovynError::DeterminismViolation(DeterminismViolationError::ChildWorkflowMismatch { .. }),
            ..
        }
    ));
}

#[test]
fn a_new_promise_is_recorded_and_pending() {
    let mut ctx = create_test_context();
    match ctx.promise_async_raw("approval") {
        AsyncStart::Pending { seq, id } => {
            assert_eq!(seq, 0);
            assert_eq!(id, "approval");
        }
        _ => panic!("expected a pending promise"),
    }
    assert!(matches!(
        &ctx.get_commands()[0],
        WorkflowCommand::CreatePromise { promise_id, timeout_ms: None, .. } if promise_id == "approval"
    ));
}

#[test]
fn a_rejected_promise_settles_with_its_error() {
    let mut ctx = replay_context(vec![
        event(1, EventType::PromiseCreated, r#"{"promiseId":"approval"}"#),
        event(2, EventType::PromiseRejected, r#"{"promiseName":"approval","error":"no"}"#),
    ]);
    match settled(ctx.promise_async_raw("approval")) {
        Err(FlovynError::PromiseRejected { name, error }) => {
            assert_eq!(name, "approval");
            assert_eq!(error, "no");
        }
        other => panic!("unexpected {:?}", other),
    }
}

#[test]
fn a_new_operation_is_ready_at_once() {
    let mut ctx = create_test_context();
    assert_eq!(settled(ctx.run_async_raw("compute", "42".to_string())).unwrap(), "42");
    assert!(matches!(
        &ctx.get_commands()[0],
        WorkflowCommand::RecordOperation { operation_name, result, .. }
            if operation_name == "compute" && result == "42"
    ));
}

#[test]
fn a_new_task_needs_no_submitter_and_records_its_priority() {
    let mut ctx = create_test_context();
    let options = flovyn_sdk::workflow::context::ScheduleTaskOptions {
        priority_seconds: Some(30),
        ..Default::default()
    };
    let f = ctx.schedule_async_with_options_raw("t", "{}".to_string(), options);
    let id = match f {
        AsyncStart::Pending { id, .. } => id,
        _ => panic!("expected a pending task"),
    };
    match &ctx.get_commands()[0] {
        WorkflowCommand::ScheduleTask { task_execution_id, priority_seconds, .. } => {
            assert_eq!(*task_execution_id, id);
            assert_eq!(*priority_seconds, Some(30));
        }
        other => panic!("unexpected command {:?}", other),
    }
}
