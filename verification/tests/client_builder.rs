use flovyn_sdk::client::builder::FlovynClientBuilder;
use flovyn_sdk::error::FlovynError;
use flovyn_sdk::task::registry::{RegisteredTask, TaskMetadata};
use flovyn_sdk::worker::registry::{RegisteredWorkflow, WorkflowMetadata};
use std::time::Duration;

type Builder = FlovynClientBuilder<u8, u8>;

#[test]
fn test_builder_default() {
    let builder = Builder::new();
    assert_eq!(builder.server_host, "localhost");
    assert_eq!(builder.server_port, 9090);
    assert_eq!(builder.queue, "default");
    assert_eq!(builder.poll_timeout, Duration::from_secs(60));
    assert!(builder.worker_id.starts_with("worker-"));
    assert_eq!(builder.worker_version, "1.0.0");
    assert!(builder.tenant_id != 0);
}

#[test]
fn test_builder_server_address() {
    let builder = Builder::new().server_address("example.com", 8080);
    assert_eq!(builder.server_host, "example.com");
    assert_eq!(builder.server_port, 8080);
}

#[test]
fn test_builder_tenant_id() {
    let id: u128 = 0x1234_5678_9abc_4def_8123_456789abcdef;
    let builder = Builder::new().tenant_id(id);
    assert_eq!(builder.tenant_id, id);
}

#[test]
fn test_builder_queue() {
    let builder = Builder::new().queue("gpu-workers");
    assert_eq!(builder.queue, "gpu-workers");
}

#[test]
fn test_builder_poll_timeout() {
    let builder = Builder::new().poll_timeout(Duration::from_secs(30));
    assert_eq!(builder.poll_timeout, Duration::from_secs(30));
}

#[test]
fn test_builder_worker_id() {
    let builder = Builder::new().worker_id("my-worker");
    assert_eq!(builder.worker_id, "my-worker");
}

#[test]
fn test_builder_auto_registration() {
    let builder = Builder::new().enable_auto_registration(false);
    assert!(!builder.enable_auto_registration);
}

#[test]
fn test_builder_heartbeat_interval() {
    let builder = Builder::new().heartbeat_interval(Duration::from_secs(60));
    assert_eq!(builder.heartbeat_interval, Duration::from_secs(60));
}

#[test]
fn test_builder_worker_token() {
    let builder = Builder::new().worker_token("test_token_123");
    assert_eq!(builder.worker_token, Some("test_token_123".to_string()));
}

#[test]
fn test_builder_worker_token_accepts_any_format() {
    let builder = Builder::new().worker_token("flovyn_wk_live_xyz123");
    assert_eq!(builder.worker_token, Some("flovyn_wk_live_xyz123".to_string()));

    let builder = Builder::new().worker_token("simple-key");
    assert_eq!(builder.worker_token, Some("simple-key".to_string()));
}

#[test]
fn test_builder_build_requires_token() {
    match Builder::new().build() {
        Err(FlovynError::InvalidConfiguration(m)) => {
            assert_eq!(m, "Authentication required. Use .worker_token(...).")
        }
        _ => panic!("expected a configuration error"),
    }
}

#[test]
fn test_builder_build_endpoint() {
    let settings = Builder::new()
        .server_address("flovyn.internal", 7233)
        .worker_token("tok")
        .build()
        .ok()
        .unwrap();
    assert_eq!(settings.endpoint, "http://flovyn.internal:7233");
    assert_eq!(settings.worker_token, "tok");
}

#[test]
fn test_builder_register_ignores_duplicates() {
    let builder = Builder::new()
        .register_workflow(RegisteredWorkflow::new(WorkflowMetadata::simple("order"), 1))
        .register_workflow(RegisteredWorkflow::new(WorkflowMetadata::simple("order"), 2))
        .register_task(RegisteredTask::new(TaskMetadata::simple("charge"), 3));
    assert_eq!(builder.workflow_registry.len(), 1);
    assert_eq!(builder.task_registry.len(), 1);
    assert!(builder.registration_error.is_some());
}

#[test]
fn build_reports_a_duplicate_task() {
    let result = Builder::new()
        .worker_token("t")
        .register_task(RegisteredTask::new(TaskMetadata::simple("charge"), 1))
        .register_task(RegisteredTask::new(TaskMetadata::simple("charge"), 2))
        .build();
    match result {
        Err(FlovynError::InvalidConfiguration(m)) => {
            assert!(m.contains("already registered"));
            assert!(m.contains("charge"));
        }
        _ => panic!("expected a configuration error"),
    }
}

#[test]
fn build_reports_the_first_refused_registration() {
    let result = Builder::new()
        .worker_token("t")
        .register_workflow(RegisteredWorkflow::new(WorkflowMetadata::simple("order"), 1))
        .register_workflow(RegisteredWorkflow::new(WorkflowMetadata::simple("order"), 2))
        .register_task(RegisteredTask::new(TaskMetadata::simple("charge"), 3))
        .register_task(RegisteredTask::new(TaskMetadata::simple("charge"), 4))
        .build();
    match result {
        Err(FlovynError::InvalidConfiguration(m)) => {
            assert!(m.starts_with("Workflow 'order'"), "{}", m);
        }
        _ => panic!("expected a configuration error"),
    }
}

#[test]
fn build_accepts_distinct_registrations() {
    let settings = Builder::new()
        .worker_token("t")
        .register_workflow(RegisteredWorkflow::new(WorkflowMetadata::simple("order"), 1))
        .register_task(RegisteredTask::new(TaskMetadata::simple("charge"), 3))
        .build()
        .ok()
        .unwrap();
    assert_eq!(settings.builder.workflow_registry.len(), 1);
    assert_eq!(settings.builder.task_registry.len(), 1);
    assert!(settings.builder.registration_error.is_none());
}
