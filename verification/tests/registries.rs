use flovyn_sdk::common::version::SemanticVersion;
use flovyn_sdk::error::FlovynError;
use flovyn_sdk::task::registry::{RegisteredTask, TaskMetadata, TaskRegistry};
use flovyn_sdk::worker::registry::{RegisteredWorkflow, WorkflowMetadata, WorkflowRegistry};

type Exec = Box<dyn Fn(String) -> String>;

fn exec(output: &'static str) -> Exec {
    Box::new(move |_input: String| output.to_string())
}

#[test]
fn test_task_metadata() {
    let metadata = TaskMetadata {
        kind: "process-image".to_string(),
        name: "Process Image".to_string(),
        description: Some("Processes images".to_string()),
        version: Some(SemanticVersion::new(1, 0, 0)),
        tags: vec!["image".to_string(), "processing".to_string()],
        timeout_seconds: Some(300),
        cancellable: true,
        heartbeat_timeout_seconds: Some(60),
    };

    assert_eq!(metadata.kind, "process-image");
    assert_eq!(metadata.name, "Process Image");
    assert!(metadata.description.is_some());
    assert!(metadata.version.is_some());
    assert_eq!(metadata.tags.len(), 2);
    assert_eq!(metadata.timeout_seconds, Some(300));
    assert!(metadata.cancellable);
    assert_eq!(metadata.heartbeat_timeout_seconds, Some(60));
}

#[test]
fn test_task_registry_new() {
    let registry: TaskRegistry<Exec> = TaskRegistry::new();
    assert!(registry.is_empty());
    assert_eq!(registry.len(), 0);
    assert!(!registry.has_registrations());
}

#[test]
fn test_task_registry_register_simple() {
    let mut registry: TaskRegistry<Exec> = TaskRegistry::new();
    let result = registry.register_simple("test-task", exec(r#"{"received":true}"#));
    assert!(result.is_ok());
    assert!(registry.has("test-task"));
    assert_eq!(registry.len(), 1);
}

#[test]
fn test_task_registry_duplicate_registration() {
    let mut registry: TaskRegistry<Exec> = TaskRegistry::new();
    registry.register_simple("test-task", exec("{}")).unwrap();
    let result = registry.register_simple("test-task", exec("{}"));
    assert!(result.is_err());
    match result {
        Err(FlovynError::InvalidConfiguration(msg)) => {
            assert!(msg.contains("already registered"));
            assert_eq!(
                msg,
                "Task 'test-task' is already registered. Each task kind must be unique within a worker."
            );
        }
        _ => panic!("Expected InvalidConfiguration error"),
    }
    assert_eq!(registry.len(), 1);
}

#[test]
fn test_task_registry_get() {
    let mut registry: TaskRegistry<Exec> = TaskRegistry::new();
    registry.register_simple("my-task", exec(r#"{"status":"ok"}"#)).unwrap();

    let task = registry.get("my-task");
    assert!(task.is_some());
    assert_eq!(task.unwrap().metadata.kind, "my-task");

    let missing = registry.get("nonexistent");
    assert!(missing.is_none());
}

#[test]
fn test_task_registry_has() {
    let mut registry: TaskRegistry<Exec> = TaskRegistry::new();
    registry.register_simple("task-a", exec("{}")).unwrap();

    assert!(registry.has("task-a"));
    assert!(!registry.has("task-b"));
}

#[test]
fn test_task_registry_get_registered_kinds() {
    let mut registry: TaskRegistry<Exec> = TaskRegistry::new();
    registry.register_simple("task-1", exec("{}")).unwrap();
    registry.register_simple("task-2", exec("{}")).unwrap();
    registry.register_simple("task-3", exec("{}")).unwrap();

    let kinds = registry.get_registered_kinds();
    assert_eq!(kinds.len(), 3);
    assert!(kinds.contains(&"task-1".to_string()));
    assert!(kinds.contains(&"task-2".to_string()));
    assert!(kinds.contains(&"task-3".to_string()));
}

#[test]
fn test_task_registry_get_all_metadata() {
    let mut registry: TaskRegistry<Exec> = TaskRegistry::new();
    registry.register_simple("task-a", exec("{}")).unwrap();
    registry.register_simple("task-b", exec("{}")).unwrap();

    let metadata = registry.get_all_metadata();
    assert_eq!(metadata.len(), 2);
    let kinds: Vec<_> = metadata.iter().map(|m| m.kind.clone()).collect();
    assert!(kinds.contains(&"task-a".to_string()));
    assert!(kinds.contains(&"task-b".to_string()));
}

#[test]
fn test_task_registry_register_with_metadata() {
    let mut registry: TaskRegistry<Exec> = TaskRegistry::new();
    let metadata = TaskMetadata {
        kind: "complex-task".to_string(),
        name: "Complex Task".to_string(),
        description: Some("A complex task".to_string()),
        version: Some(SemanticVersion::new(2, 1, 0)),
        tags: vec!["complex".to_string()],
        timeout_seconds: Some(600),
        cancellable: false,
        heartbeat_timeout_seconds: Some(120),
    };
    let result = registry.register_raw(RegisteredTask::new(metadata, exec(r#"{"processed":true}"#)));
    assert!(result.is_ok());

    let task = registry.get("complex-task").unwrap();
    assert_eq!(task.metadata.name, "Complex Task");
    assert_eq!(task.metadata.description, Some("A complex task".to_string()));
    assert!(!task.metadata.cancellable);
    assert_eq!(task.metadata.timeout_seconds, Some(600));
}

#[test]
fn simple_task_metadata_defaults() {
    let m = TaskMetadata::simple("resize");
    assert_eq!(m.kind, "resize");
    assert_eq!(m.name, "resize");
    assert!(m.description.is_none());
    assert!(m.version.is_none());
    assert!(m.tags.is_empty());
    assert!(m.timeout_seconds.is_none());
    assert!(m.cancellable);
    assert!(m.heartbeat_timeout_seconds.is_none());
}

#[test]
fn test_workflow_metadata() {
    let metadata = WorkflowMetadata {
        kind: "payment-workflow".to_string(),
        name: "Payment Workflow".to_string(),
        description: Some("Processes payments".to_string()),
        version: Some(SemanticVersion::new(1, 0, 0)),
        tags: vec!["payment".to_string(), "finance".to_string()],
        cancellable: true,
        timeout_seconds: Some(300),
        content_hash: None,
        input_schema: Some(r#"{"type":"object"}"#.to_string()),
        output_schema: None,
    };

    assert_eq!(metadata.kind, "payment-workflow");
    assert_eq!(metadata.name, "Payment Workflow");
    assert!(metadata.description.is_some());
    assert!(metadata.version.is_some());
    assert_eq!(metadata.tags.len(), 2);
    assert!(metadata.cancellable);
    assert_eq!(metadata.timeout_seconds, Some(300));
    assert!(metadata.input_schema.is_some());
}

#[test]
fn test_workflow_registry_new() {
    let registry: WorkflowRegistry<Exec> = WorkflowRegistry::new();
    assert!(registry.is_empty());
    assert_eq!(registry.len(), 0);
    assert!(!registry.has_registrations());
}

#[test]
fn test_workflow_registry_register_simple() {
    let mut registry: WorkflowRegistry<Exec> = WorkflowRegistry::new();
    let result = registry.register_simple("test-workflow", exec(r#"{"received":true}"#));
    assert!(result.is_ok());
    assert!(registry.has("test-workflow"));
    assert_eq!(registry.len(), 1);
}

#[test]
fn test_workflow_registry_duplicate_registration() {
    let mut registry: WorkflowRegistry<Exec> = WorkflowRegistry::new();
    registry.register_simple("test-workflow", exec("{}")).unwrap();
    let result = registry.register_simple("test-workflow", exec("{}"));
    assert!(result.is_err());
    match result {
        Err(FlovynError::InvalidConfiguration(msg)) => {
            assert!(msg.contains("already registered"));
        }
        _ => panic!("Expected InvalidConfiguration error"),
    }
}

#[test]
fn test_workflow_registry_get() {
    let mut registry: WorkflowRegistry<Exec> = WorkflowRegistry::new();
    registry.register_simple("my-workflow", exec(r#"{"status":"ok"}"#)).unwrap();

    let workflow = registry.get("my-workflow");
    assert!(workflow.is_some());
    assert_eq!(workflow.unwrap().metadata.kind, "my-workflow");

    let missing = registry.get("nonexistent");
    assert!(missing.is_none());
}

#[test]
fn test_workflow_registry_has() {
    let mut registry: WorkflowRegistry<Exec> = WorkflowRegistry::new();
    registry.register_simple("workflow-a", exec("{}")).unwrap();
    assert!(registry.has("workflow-a"));
    assert!(!registry.has("workflow-b"));
}

#[test]
fn test_workflow_registry_get_registered_kinds() {
    let mut registry: WorkflowRegistry<Exec> = WorkflowRegistry::new();
    registry.register_simple("workflow-1", exec("{}")).unwrap();
    registry.register_simple("workflow-2", exec("{}")).unwrap();
    registry.register_simple("workflow-3", exec("{}")).unwrap();

    let kinds = registry.get_registered_kinds();
    assert_eq!(kinds.len(), 3);
    assert!(kinds.contains(&"workflow-1".to_string()));
    assert!(kinds.contains(&"workflow-2".to_string()));
    assert!(kinds.contains(&"workflow-3".to_string()));
}

#[test]
fn test_workflow_registry_get_all_metadata() {
    let mut registry: WorkflowRegistry<Exec> = WorkflowRegistry::new();
    registry.register_simple("workflow-a", exec("{}")).unwrap();
    registry.register_simple("workflow-b", exec("{}")).unwrap();

    let metadata = registry.get_all_metadata();
    assert_eq!(metadata.len(), 2);

    let kinds: Vec<_> = metadata.iter().map(|m| m.kind.clone()).collect();
    assert!(kinds.contains(&"workflow-a".to_string()));
    assert!(kinds.contains(&"workflow-b".to_string()));
}

#[test]
fn test_workflow_registry_register_with_metadata() {
    let mut registry: WorkflowRegistry<Exec> = WorkflowRegistry::new();
    let metadata = WorkflowMetadata {
        kind: "complex-workflow".to_string(),
        name: "Complex Workflow".to_string(),
        description: Some("A complex workflow".to_string()),
        version: Some(SemanticVersion::new(2, 1, 0)),
        tags: vec!["complex".to_string()],
        cancellable: false,
        timeout_seconds: Some(600),
        content_hash: None,
        input_schema: None,
        output_schema: None,
    };
    let result = registry.register_raw(RegisteredWorkflow::new(metadata, exec(r#"{"processed":true}"#)));
    assert!(result.is_ok());

    let workflow = registry.get("complex-workflow").unwrap();
    assert_eq!(workflow.metadata.name, "Complex Workflow");
    assert_eq!(
        workflow.metadata.description,
        Some("A complex workflow".to_string())
    );
    assert!(!workflow.metadata.cancellable);
    assert_eq!(workflow.metadata.timeout_seconds, Some(600));
}

#[test]
fn registries_keep_registration_order_and_copy_metadata() {
    let mut registry: WorkflowRegistry<Exec> = WorkflowRegistry::new();
    let metadata = WorkflowMetadata {
        kind: "w".to_string(),
        name: "W".to_string(),
        description: None,
        version: None,
        tags: vec!["a".to_string(), "b".to_string()],
        cancellable: true,
        timeout_seconds: None,
        content_hash: Some("abc123".to_string()),
        input_schema: Some(r#"{"type":"object"}"#.to_string()),
        output_schema: None,
    };
    registry.register_raw(RegisteredWorkflow::new(metadata, exec("{}"))).unwrap();
    registry.register_simple("v", exec("{}")).unwrap();
    assert_eq!(registry.get_registered_kinds(), vec!["w", "v"]);
    let copies = registry.get_all_metadata();
    assert_eq!(copies[0].tags, vec!["a".to_string(), "b".to_string()]);
    assert_eq!(copies[0].content_hash, Some("abc123".to_string()));
    assert_eq!(copies[0].input_schema, Some(r#"{"type":"object"}"#.to_string()));
    assert_eq!(copies[1].name, "v");
}

#[test]
fn register_simple_registers_simple_task_metadata() {
    let mut registry: TaskRegistry<Exec> = TaskRegistry::new();
    registry.register_simple("test-task", exec("{}")).unwrap();
    let task = registry.get("test-task").unwrap();
    assert_eq!(task.metadata.name, "test-task");
    assert!(task.metadata.cancellable);
    assert!(task.metadata.tags.is_empty());
    assert!(task.metadata.version.is_none());
    assert!(task.metadata.description.is_none());
    assert!(task.metadata.timeout_seconds.is_none());
    assert_eq!((task.execute_fn())("x".to_string()), "{}");
}

#[test]
fn register_simple_registers_simple_workflow_metadata() {
    let mut registry: WorkflowRegistry<Exec> = WorkflowRegistry::new();
    registry.register_simple("test-workflow", exec("{}")).unwrap();
    let workflow = registry.get("test-workflow").unwrap();
    assert_eq!(workflow.metadata.name, "test-workflow");
    assert!(workflow.metadata.cancellable);
    assert!(workflow.metadata.tags.is_empty());
    assert!(workflow.metadata.version.is_none());
    assert!(workflow.metadata.description.is_none());
    assert!(workflow.metadata.timeout_seconds.is_none());
}
