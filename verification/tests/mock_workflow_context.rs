use flovyn_sdk::error::FlovynError;
use flovyn_sdk::testing::mock_workflow_context::MockWorkflowContext;
use flovyn_sdk::workflow::context::ScheduleTaskOptions;
use std::time::Duration;

#[test]
fn test_mock_workflow_context_new() {
    let ctx = MockWorkflowContext::new();
    assert!(ctx.workflow_execution_id() != 0);
    assert!(ctx.tenant_id() != 0);
    assert_eq!(ctx.input_raw().as_str(), "null");
}

#[test]
fn test_mock_workflow_context_builder() {
    let id: u128 = 0x1234_5678_9abc_4def_8123_456789abcdef;
    let tenant: u128 = 0x0fed_cba9_8765_4321_8fed_cba987654321;
    let ctx = MockWorkflowContext::builder()
        .workflow_execution_id(id)
        .tenant_id(tenant)
        .input("{\"key\":\"value\"}".to_string())
        .initial_time_millis(1000)
        .build();

    assert_eq!(ctx.workflow_execution_id(), id);
    assert_eq!(ctx.tenant_id(), tenant);
    assert_eq!(ctx.input_raw().as_str(), "{\"key\":\"value\"}");
    assert_eq!(ctx.current_time_millis(), 1000);
}

#[test]
fn test_mock_workflow_context_state() {
    let mut ctx = MockWorkflowContext::builder()
        .state("initial", "\"value\"".to_string())
        .build();

    assert_eq!(ctx.get_raw("initial").unwrap(), Some("\"value\"".to_string()));
    assert_eq!(ctx.get_raw("missing").unwrap(), None);

    ctx.set_raw("new_key", "42".to_string()).unwrap();
    assert_eq!(ctx.get_raw("new_key").unwrap(), Some("42".to_string()));

    ctx.clear("new_key").unwrap();
    assert_eq!(ctx.get_raw("new_key").unwrap(), None);
}

#[test]
fn test_mock_workflow_context_task_scheduling() {
    let mut ctx = MockWorkflowContext::builder()
        .task_result("send-email", "{\"sent\":true}".to_string())
        .build();

    let result = ctx.schedule_raw("send-email", "{\"to\":\"test@example.com\"}".to_string());
    assert!(result.is_ok());
    assert_eq!(result.unwrap(), "{\"sent\":true}");
    assert!(ctx.was_task_scheduled("send-email"));
    let tasks = ctx.scheduled_tasks();
    assert_eq!(tasks.len(), 1);
    assert_eq!(tasks[0].task_type, "send-email");
    assert_eq!(tasks[0].input, "{\"to\":\"test@example.com\"}");
}

#[test]
fn test_mock_workflow_context_task_not_configured() {
    let mut ctx = MockWorkflowContext::new();
    let result = ctx.schedule_raw("unknown-task", "{}".to_string());
    assert!(result.is_err());
    match result {
        Err(FlovynError::Other(msg)) => {
            assert_eq!(msg, "No mock result configured for task type: unknown-task")
        }
        _ => panic!("expected the not-configured error"),
    }
    assert!(ctx.was_task_scheduled("unknown-task"));
}

#[test]
fn test_mock_workflow_context_promise() {
    let mut ctx = MockWorkflowContext::builder()
        .promise_result("approval", "{\"approved\":true}".to_string())
        .build();

    let result = ctx.promise_raw("approval");
    assert!(result.is_ok());
    assert_eq!(result.unwrap(), "{\"approved\":true}");
    assert!(ctx.was_promise_created("approval"));
}

#[test]
fn test_mock_workflow_context_promise_not_configured() {
    let mut ctx = MockWorkflowContext::new();
    match ctx.promise_with_timeout_raw("approval", 1000) {
        Err(FlovynError::Other(msg)) => {
            assert_eq!(msg, "No mock result configured for promise: approval")
        }
        _ => panic!("expected the not-configured error"),
    }
    assert!(ctx.was_promise_created("approval"));
}

#[test]
fn test_mock_workflow_context_child_workflow() {
    let mut ctx = MockWorkflowContext::builder()
        .child_workflow_result("payment-workflow", "{\"success\":true}".to_string())
        .build();

    let result = ctx.schedule_workflow_raw("payment", "payment-workflow", "{\"amount\":100}".to_string());
    assert!(result.is_ok());
    assert_eq!(result.unwrap(), "{\"success\":true}");
    assert!(ctx.was_workflow_scheduled("payment-workflow"));
    assert!(!ctx.was_workflow_scheduled("payment"));
}

#[test]
fn test_mock_workflow_context_child_workflow_not_configured() {
    let mut ctx = MockWorkflowContext::new();
    match ctx.schedule_workflow_raw("payment", "payment-workflow", "{}".to_string()) {
        Err(FlovynError::Other(msg)) => {
            assert_eq!(msg, "No mock result configured for child workflow kind: payment-workflow")
        }
        _ => panic!("expected the not-configured error"),
    }
}

#[test]
fn test_mock_workflow_context_run_raw() {
    let mut ctx = MockWorkflowContext::new();
    let result = ctx.run_raw("operation1", "{\"result\":\"data\"}".to_string());
    assert!(result.is_ok());
    assert_eq!(result.unwrap(), "{\"result\":\"data\"}");
    assert!(ctx.was_operation_recorded("operation1"));
    assert!(!ctx.was_operation_recorded("operation2"));
    let ops = ctx.recorded_operations();
    assert_eq!(ops.len(), 1);
    assert_eq!(ops[0].name, "operation1");
}

#[test]
fn test_mock_workflow_context_cancellation() {
    let mut ctx = MockWorkflowContext::new();
    assert!(!ctx.is_cancellation_requested());
    ctx.request_cancellation();
    assert!(ctx.is_cancellation_requested());
}

#[test]
fn test_mock_workflow_context_check_cancellation() {
    let mut ctx = MockWorkflowContext::new();
    assert!(ctx.check_cancellation().is_ok());

    ctx.request_cancellation();
    match ctx.check_cancellation() {
        Err(FlovynError::WorkflowCancelled(msg)) => assert_eq!(msg, "Cancellation requested"),
        _ => panic!("expected a cancellation error"),
    }
}

#[test]
fn test_mock_workflow_context_random_uuid() {
    let mut ctx = MockWorkflowContext::new();
    let uuid1 = ctx.random_uuid();
    let uuid2 = ctx.random_uuid();
    assert_ne!(uuid1, uuid2);
}

#[test]
fn test_mock_workflow_context_random_uuid_is_reproducible() {
    let mut a = MockWorkflowContext::new();
    let mut b = MockWorkflowContext::new();
    let a1 = a.random_uuid();
    let b1 = b.random_uuid();
    assert_eq!(a1, b1);
    // A name-based UUID: version 5, RFC 4122 variant.
    assert_eq!((a1 >> 76) & 0xf, 5);
    assert_eq!((a1 >> 62) & 0x3, 2);
}

#[test]
fn test_mock_workflow_context_random_values_in_range() {
    let ctx = MockWorkflowContext::builder().rng_seed(7).build();
    let x = ctx.random_int(10, 20);
    assert!((10..20).contains(&x));
    assert_eq!(x, ctx.random_int(10, 20));
    let y = ctx.random_long(-5, 5);
    assert!((-5..5).contains(&y));
    assert_eq!(ctx.random_bool(), ctx.random_bool());
}

#[test]
fn test_mock_workflow_context_time_controller() {
    let mut ctx = MockWorkflowContext::builder().initial_time_millis(1000).build();

    assert_eq!(ctx.current_time_millis(), 1000);
    ctx.time_controller_mut().advance(5000);
    assert_eq!(ctx.current_time_millis(), 6000);
}

#[test]
fn test_mock_workflow_context_sleep_registers_timer() {
    let mut ctx = MockWorkflowContext::builder().initial_time_millis(1000).build();

    ctx.sleep(10000).unwrap();
    assert_eq!(ctx.time_controller().pending_timer_ids().len(), 1);
    assert_eq!(ctx.time_controller().pending_timer_ids()[0], "sleep-0");
}

#[test]
fn test_mock_workflow_context_state_keys() {
    let ctx = MockWorkflowContext::builder()
        .state("key1", "\"value1\"".to_string())
        .state("key2", "\"value2\"".to_string())
        .build();

    let keys = ctx.state_keys().unwrap();
    assert_eq!(keys.len(), 2);
    assert!(keys.contains(&"key1".to_string()));
    assert!(keys.contains(&"key2".to_string()));
}

#[test]
fn test_mock_workflow_context_clear_all() {
    let mut ctx = MockWorkflowContext::builder()
        .state("key1", "\"value1\"".to_string())
        .state("key2", "\"value2\"".to_string())
        .build();

    ctx.clear_all().unwrap();
    assert!(ctx.state_keys().unwrap().is_empty());
}

#[test]
fn test_mock_workflow_context_set_task_result_after_build() {
    let mut ctx = MockWorkflowContext::new();
    ctx.set_task_result("new-task", "{\"result\":\"ok\"}".to_string());
    assert_eq!(ctx.schedule_raw("new-task", "{}".to_string()).unwrap(), "{\"result\":\"ok\"}");
}

#[test]
fn test_schedule_without_mock_result_returns_error() {
    let mut ctx = MockWorkflowContext::new();
    let result = ctx.schedule_raw(
        "send-email",
        "{\"to\":\"test@example.com\",\"subject\":\"Hello\"}".to_string(),
    );
    assert!(result.is_err());
}

#[test]
fn test_schedule_workflow_without_mock_result_returns_error() {
    let mut ctx = MockWorkflowContext::new();
    let result = ctx.schedule_workflow_raw(
        "payment-1",
        "payment-workflow",
        "{\"amount\":10000,\"currency\":\"USD\"}".to_string(),
    );
    assert!(result.is_err());
}

#[test]
fn test_promise_without_mock_result_returns_error() {
    let mut ctx = MockWorkflowContext::new();
    assert!(ctx.promise_raw("approval").is_err());
}

#[test]
fn test_mock_workflow_context_random_values_vary_with_seed() {
    let mut draws = Vec::new();
    for seed in 0..20u64 {
        let ctx = MockWorkflowContext::builder().rng_seed(seed).build();
        draws.push(ctx.random_int(0, 1000));
        assert!(ctx.random_long(-1000, 1000) >= -1000);
    }
    assert!(draws.iter().any(|&d| d != 0));
    assert!(draws.iter().any(|&d| d != draws[0]));
}

#[test]
fn test_schedule_with_options_typed() {
    let mut ctx = MockWorkflowContext::builder()
        .task_result("send-email", "{\"sent\":true,\"message_id\":\"msg-002\"}".to_string())
        .build();
    let options = ScheduleTaskOptions {
        timeout: Some(Duration::from_secs(30)),
        max_retries: Some(3),
        ..Default::default()
    };
    let input = "{\"to\":\"test@example.com\",\"subject\":\"Hello with options\"}".to_string();
    let _result = ctx.schedule_with_options_raw("send-email", input, options);

    assert!(ctx.was_task_scheduled("send-email"));
    let scheduled_tasks = ctx.scheduled_tasks();
    assert_eq!(scheduled_tasks.len(), 1);
    assert_eq!(scheduled_tasks[0].options.timeout, Some(Duration::from_secs(30)));
    assert_eq!(scheduled_tasks[0].options.max_retries, Some(3));
}

#[test]
fn test_schedule_workflow_typed() {
    let mut ctx = MockWorkflowContext::builder()
        .child_workflow_result(
            "payment-workflow",
            "{\"success\":true,\"transaction_id\":\"txn-789\"}".to_string(),
        )
        .build();
    let input = "{\"amount\":10000,\"currency\":\"USD\"}".to_string();
    let _result = ctx.schedule_workflow_raw("payment-1", "payment-workflow", input.clone());

    assert!(ctx.was_workflow_scheduled("payment-workflow"));
    let scheduled_workflows = ctx.scheduled_workflows();
    assert_eq!(scheduled_workflows.len(), 1);
    assert_eq!(scheduled_workflows[0].name, "payment-1");
    assert_eq!(scheduled_workflows[0].kind, "payment-workflow");
    assert_eq!(scheduled_workflows[0].input, input);
}

#[test]
fn scheduling_without_options_records_none() {
    let mut ctx = MockWorkflowContext::builder().build();
    let _result = ctx.schedule_raw("send-email", "{}".to_string());
    let scheduled_tasks = ctx.scheduled_tasks();
    assert!(scheduled_tasks[0].options.timeout.is_none());
    assert!(scheduled_tasks[0].options.max_retries.is_none());
    assert!(scheduled_tasks[0].options.queue.is_none());
    assert!(scheduled_tasks[0].options.priority_seconds.is_none());
}

#[test]
fn mock_uuids_follow_the_calls_not_the_settings() {
    let mut a = MockWorkflowContext::builder().rng_seed(1).initial_time_millis(5).build();
    let mut b = MockWorkflowContext::builder()
        .rng_seed(99)
        .tenant_id(7)
        .workflow_execution_id(8)
        .task_result("t", "{}".to_string())
        .build();
    let _ = a.schedule_raw("t", "{}".to_string());
    let _ = b.schedule_raw("t", "{}".to_string());
    let _ = a.sleep(10);
    let _ = b.sleep(10);
    let _ = a.set_raw("k", "1".to_string());
    assert_eq!(a.random_uuid(), b.random_uuid());
    assert_eq!(a.random_uuid(), b.random_uuid());
}
