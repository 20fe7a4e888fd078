use flovyn_sdk::client::hook::{HookEvent, LoggingHook, NoOpHook, TraceLevel};
use flovyn_sdk::client::options::{StartWorkflowOptions, StartWorkflowResult};
use std::collections::HashMap;
use std::time::Duration;

#[test]
fn test_start_workflow_options_default() {
    let options = StartWorkflowOptions::new();
    assert_eq!(options.queue, "default");
    assert_eq!(options.priority_seconds, 0);
    assert!(options.idempotency_key.is_none());
}

#[test]
fn test_start_workflow_options_builder() {
    let options = StartWorkflowOptions::new()
        .with_queue("gpu-workers")
        .with_priority(10)
        .with_idempotency_key("order-123");

    assert_eq!(options.queue, "gpu-workers");
    assert_eq!(options.priority_seconds, 10);
    assert_eq!(options.idempotency_key, Some("order-123".to_string()));
}

#[test]
fn test_start_workflow_options_with_version() {
    let options = StartWorkflowOptions::new().with_workflow_version("2.0.0");

    assert_eq!(options.workflow_version, Some("2.0.0".to_string()));
}

#[test]
fn test_start_workflow_result() {
    let result = StartWorkflowResult {
        workflow_execution_id: 0xfeed,
        idempotency_key_used: true,
        idempotency_key_new: false,
    };

    assert!(result.idempotency_key_used);
    assert!(!result.idempotency_key_new);
}

#[test]
fn test_start_workflow_options_with_labels() {
    let mut labels = HashMap::new();
    labels.insert("environment".to_string(), "production".to_string());
    labels.insert("priority".to_string(), "high".to_string());

    let options = StartWorkflowOptions::new().with_labels(labels.clone());

    assert_eq!(options.labels.len(), 2);
    assert_eq!(
        options.labels.get("environment"),
        Some(&"production".to_string())
    );
}

#[test]
fn test_start_workflow_options_with_idempotency_ttl() {
    let options = StartWorkflowOptions::new()
        .with_idempotency_key("key-123")
        .with_idempotency_key_ttl(Duration::from_secs(3600));

    assert_eq!(options.idempotency_key, Some("key-123".to_string()));
    assert_eq!(options.idempotency_key_ttl, Some(Duration::from_secs(3600)));
}

#[test]
fn test_start_workflow_options_full_builder() {
    let options = StartWorkflowOptions::new()
        .with_queue("ml-workers")
        .with_priority(5)
        .with_workflow_version("1.2.3")
        .with_idempotency_key("order-456")
        .with_idempotency_key_ttl(Duration::from_secs(7200));

    assert_eq!(options.queue, "ml-workers");
    assert_eq!(options.priority_seconds, 5);
    assert_eq!(options.workflow_version, Some("1.2.3".to_string()));
    assert_eq!(options.idempotency_key, Some("order-456".to_string()));
    assert_eq!(options.idempotency_key_ttl, Some(Duration::from_secs(7200)));
}

#[test]
fn builder_keeps_earlier_settings() {
    let options = StartWorkflowOptions::new()
        .with_idempotency_key("k")
        .with_queue("q")
        .with_priority(-3);
    assert_eq!(options.idempotency_key, Some("k".to_string()));
    assert_eq!(options.queue, "q");
    assert_eq!(options.priority_seconds, -3);
    assert!(options.labels.is_empty());
    assert!(options.workflow_version.is_none());
}

#[test]
fn test_logging_hook_creation() {
    let _hook = LoggingHook::info();
    let _hook = LoggingHook::debug();
    let _hook = LoggingHook::default();
}

#[test]
fn logging_hook_levels() {
    let _noop = NoOpHook;
    let info = LoggingHook::info();
    let debug = LoggingHook::debug();
    assert_eq!(info.get_level(), TraceLevel::Info);
    assert_eq!(LoggingHook::default().get_level(), TraceLevel::Info);
    assert_eq!(info.level_for(HookEvent::WorkflowStarted), Some(TraceLevel::Info));
    assert_eq!(debug.level_for(HookEvent::WorkflowCompleted), Some(TraceLevel::Debug));
    assert_eq!(debug.level_for(HookEvent::WorkflowFailed), Some(TraceLevel::Error));
    assert_eq!(info.level_for(HookEvent::TaskScheduled), None);
    assert_eq!(
        LoggingHook::new(TraceLevel::Warn).level_for(HookEvent::WorkflowStarted),
        Some(TraceLevel::Info)
    );
    assert_eq!(info.message_for(HookEvent::WorkflowFailed), Some("Workflow failed"));
    assert_eq!(info.message_for(HookEvent::StateUpdated), None);
}
