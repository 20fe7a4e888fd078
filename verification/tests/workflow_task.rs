use flovyn_sdk::error::FlovynError;
use flovyn_sdk::worker::registry::WorkflowRegistry;
use flovyn_sdk::worker::workflow_task::{
    finish_workflow_task, replay_event_from_history, workflow_for_kind, WorkflowStatus,
};
use flovyn_sdk::workflow::command::WorkflowCommand;
use flovyn_sdk::workflow::event::{parse_event_type, EventType};

#[test]
fn test_parse_event_type() {
    assert_eq!(parse_event_type("WORKFLOW_STARTED"), EventType::WorkflowStarted);
    assert_eq!(parse_event_type("OPERATION_COMPLETED"), EventType::OperationCompleted);
    assert_eq!(parse_event_type("TASK_COMPLETED"), EventType::TaskCompleted);
    assert_eq!(parse_event_type("UNKNOWN_TYPE"), EventType::WorkflowStarted);
}

#[test]
fn test_replay_event_from_history() {
    let e = replay_event_from_history(3, "TASK_COMPLETED", "{\"kind\":\"charge\",\"result\":7}");
    assert_eq!(e.sequence_number(), 3);
    assert_eq!(e.event_type(), EventType::TaskCompleted);
    assert_eq!(e.get_string("kind"), Some("charge".to_string()));
    assert_eq!(e.get("result"), Some("7".to_string()));

    let not_object = replay_event_from_history(4, "TIMER_FIRED", "[1,2]");
    assert!(not_object.fields.is_empty());
}

#[test]
fn test_workflow_for_kind() {
    let mut registry: WorkflowRegistry<u8> = WorkflowRegistry::new();
    registry.register_simple("order", 1).unwrap();
    assert!(workflow_for_kind(&registry, "order").is_ok());
    match workflow_for_kind(&registry, "refund") {
        Err(FlovynError::Other(msg)) => assert_eq!(msg, "Workflow kind not registered: refund"),
        _ => panic!("expected an error"),
    }
}

#[test]
fn test_finish_workflow_task_completed() {
    let recorded = vec![WorkflowCommand::SetState {
        sequence_number: 1,
        key: "a".to_string(),
        value: "1".to_string(),
    }];
    let (status, commands) = finish_workflow_task(recorded, 4, Ok("{\"ok\":true}".to_string()));
    assert_eq!(status, WorkflowStatus::Completed);
    assert_eq!(commands.len(), 2);
    assert!(matches!(
        &commands[1],
        WorkflowCommand::CompleteWorkflow { sequence_number: 5, output } if output == "{\"ok\":true}"
    ));
}

#[test]
fn test_finish_workflow_task_suspended_and_failed() {
    let (status, commands) = finish_workflow_task(
        Vec::new(),
        0,
        Err(FlovynError::Suspended { reason: "waiting for task".to_string() }),
    );
    assert_eq!(status, WorkflowStatus::Suspended);
    assert!(matches!(
        &commands[0],
        WorkflowCommand::SuspendWorkflow { sequence_number: 1, reason } if reason == "waiting for task"
    ));

    let (status, commands) =
        finish_workflow_task(Vec::new(), 2, Err(FlovynError::WorkflowFailed("bad".to_string())));
    assert_eq!(status, WorkflowStatus::Failed);
    match &commands[0] {
        WorkflowCommand::FailWorkflow { sequence_number, error, stack_trace, failure_type } => {
            assert_eq!(*sequence_number, 3);
            assert_eq!(error, "Workflow failed: bad");
            assert!(stack_trace.is_empty());
            assert_eq!(failure_type.as_deref(), Some("ERROR"));
        }
        _ => panic!("expected a failure command"),
    }
}
