use flovyn_sdk::error::FlovynError;
use flovyn_sdk::task::context::LogLevel;
use flovyn_sdk::testing::mock_task_context::MockTaskContext;

#[test]
fn test_mock_task_context_new() {
    let ctx = MockTaskContext::new();
    assert!(ctx.task_execution_id() != 0);
    assert_eq!(ctx.attempt(), 1);
}

#[test]
fn test_mock_task_context_builder() {
    let id: u128 = 0x1234_5678_9abc_4def_8123_456789abcdef;
    let ctx = MockTaskContext::builder().task_execution_id(id).attempt(3).build();

    assert_eq!(ctx.task_execution_id(), id);
    assert_eq!(ctx.attempt(), 3);
}

#[test]
fn test_mock_task_context_builder_cancelled() {
    let ctx = MockTaskContext::builder().cancelled().build();
    assert!(ctx.is_cancelled());
}

#[test]
fn test_mock_task_context_logging() {
    let mut ctx = MockTaskContext::new();

    ctx.log(LogLevel::Info, "Starting task").unwrap();
    ctx.log(LogLevel::Debug, "Debug info").unwrap();
    ctx.log(LogLevel::Warn, "Warning message").unwrap();
    ctx.log(LogLevel::Error, "Error occurred").unwrap();

    let logs = ctx.log_messages();
    assert_eq!(logs.len(), 4);

    let info_logs = ctx.log_messages_at_level(LogLevel::Info);
    assert_eq!(info_logs.len(), 1);
    assert_eq!(info_logs[0].message, "Starting task");

    assert!(ctx.was_logged("Starting"));
    assert!(ctx.was_logged("Warning"));
    assert!(!ctx.was_logged("Not logged"));
}

#[test]
fn test_mock_task_context_cancellation() {
    let mut ctx = MockTaskContext::new();
    assert!(!ctx.is_cancelled());

    ctx.cancel();
    assert!(ctx.is_cancelled());
}

#[test]
fn test_mock_task_context_check_cancellation() {
    let mut ctx = MockTaskContext::new();
    assert!(ctx.check_cancellation().is_ok());

    ctx.cancel();
    assert!(matches!(ctx.check_cancellation(), Err(FlovynError::TaskCancelled)));
}

#[test]
fn test_mock_task_context_set_attempt() {
    let mut ctx = MockTaskContext::new();
    assert_eq!(ctx.attempt(), 1);

    ctx.set_attempt(5);
    assert_eq!(ctx.attempt(), 5);
}

#[test]
fn test_mock_task_context_clear_recordings() {
    let mut ctx = MockTaskContext::new();

    ctx.log(LogLevel::Info, "Test").unwrap();
    assert!(!ctx.log_messages().is_empty());

    ctx.clear_recordings();

    assert!(ctx.log_messages().is_empty());
}

#[test]
fn test_mock_task_context_default() {
    let ctx = MockTaskContext::default();
    assert_eq!(ctx.attempt(), 1);
}
