use flovyn_sdk::workflow::command::WorkflowCommand;
use flovyn_sdk::worker::wire::{command_to_wire, WireCommandData, WireCommandType};

#[test]
fn an_operation_result_travels_as_compact_json_bytes() {
    let c = WorkflowCommand::RecordOperation {
        sequence_number: 3,
        operation_name: "fetch".to_string(),
        result: "{ \"a\" : [1, 2] }".to_string(),
    };
    let w = command_to_wire(&c);
    assert_eq!(w.sequence_number, 3);
    assert_eq!(w.command_type, WireCommandType::RecordOperation);
    match w.command_data {
        WireCommandData::RecordOperation { operation_name, result } => {
            assert_eq!(operation_name, "fetch");
            assert_eq!(result, b"{\"a\":[1,2]}".to_vec());
        }
        other => panic!("unexpected {:?}", other),
    }
}

#[test]
fn a_task_carries_its_execution_id_as_uuid_text() {
    let c = WorkflowCommand::ScheduleTask {
        sequence_number: 1,
        task_type: "send-email".to_string(),
        task_execution_id: 0x550e8400_e29b_41d4_a716_446655440000,
        input: "\"x\"".to_string(),
        priority_seconds: Some(5),
    };
    match command_to_wire(&c).command_data {
        WireCommandData::ScheduleTask { task_type, input, task_execution_id } => {
            assert_eq!(task_type, "send-email");
            assert_eq!(input, b"\"x\"".to_vec());
            assert_eq!(task_execution_id, "550e8400-e29b-41d4-a716-446655440000");
        }
        other => panic!("unexpected {:?}", other),
    }
}

#[test]
fn a_failure_without_type_sends_an_empty_type() {
    let c = WorkflowCommand::FailWorkflow {
        sequence_number: 9,
        error: "boom".to_string(),
        stack_trace: "at main".to_string(),
        failure_type: None,
    };
    let w = command_to_wire(&c);
    assert_eq!(w.command_type, WireCommandType::FailWorkflow);
    match w.command_data {
        WireCommandData::FailWorkflow { error, stack_trace, failure_type } => {
            assert_eq!(error, "boom");
            assert_eq!(stack_trace, "at main");
            assert_eq!(failure_type, "");
        }
        other => panic!("unexpected {:?}", other),
    }
}

#[test]
fn a_child_workflow_carries_its_ids_as_uuid_text() {
    let c = WorkflowCommand::ScheduleChildWorkflow {
        sequence_number: 2,
        name: "payment-1".to_string(),
        kind: Some("payment-workflow".to_string()),
        definition_id: None,
        child_execution_id: 1,
        input: "{}".to_string(),
        task_queue: "default".to_string(),
        priority_seconds: 0,
    };
    match command_to_wire(&c).command_data {
        WireCommandData::ScheduleChildWorkflow {
            child_execution_name,
            workflow_kind,
            workflow_definition_id,
            child_workflow_execution_id,
            input,
            task_queue,
            priority_seconds,
        } => {
            assert_eq!(child_execution_name, "payment-1");
            assert_eq!(workflow_kind.as_deref(), Some("payment-workflow"));
            assert!(workflow_definition_id.is_none());
            assert_eq!(child_workflow_execution_id, "00000000-0000-0000-0000-000000000001");
            assert_eq!(input, b"{}".to_vec());
            assert_eq!(task_queue, "default");
            assert_eq!(priority_seconds, 0);
        }
        other => panic!("unexpected {:?}", other),
    }
}

#[test]
fn timers_keep_their_ids_and_durations() {
    let w = command_to_wire(&WorkflowCommand::StartTimer {
        sequence_number: 4,
        timer_id: "sleep-0".to_string(),
        duration_ms: 1500,
    });
    assert_eq!(w.command_type, WireCommandType::StartTimer);
    match w.command_data {
        WireCommandData::StartTimer { timer_id, duration_ms } => {
            assert_eq!(timer_id, "sleep-0");
            assert_eq!(duration_ms, 1500);
        }
        other => panic!("unexpected {:?}", other),
    }
}
