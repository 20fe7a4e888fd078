use flovyn_sdk::client::start::{plan_client_start, StartPlan};
use flovyn_sdk::error::FlovynError;
use flovyn_sdk::task::registry::{RegisteredTask, TaskMetadata, TaskRegistry};
use flovyn_sdk::worker::registry::{RegisteredWorkflow, WorkflowMetadata, WorkflowRegistry};

#[test]
fn a_running_client_does_not_start_again() {
    let workflows: WorkflowRegistry<u8> = WorkflowRegistry::new();
    let tasks: TaskRegistry<u8> = TaskRegistry::new();
    match plan_client_start(true, &workflows, &tasks) {
        Err(FlovynError::Other(m)) => assert_eq!(m, "Client already running"),
        _ => panic!("expected the client to be refused"),
    }
}

#[test]
fn workers_start_only_for_what_is_registered() {
    let mut workflows: WorkflowRegistry<u8> = WorkflowRegistry::new();
    let tasks: TaskRegistry<u8> = TaskRegistry::new();
    assert_eq!(
        plan_client_start(false, &workflows, &tasks).ok().unwrap(),
        StartPlan { start_workflow_worker: false, start_task_worker: false }
    );
    workflows.register_raw(RegisteredWorkflow::new(WorkflowMetadata::simple("order"), 1)).unwrap();
    assert_eq!(
        plan_client_start(false, &workflows, &tasks).ok().unwrap(),
        StartPlan { start_workflow_worker: true, start_task_worker: false }
    );
    let mut tasks = tasks;
    tasks.register_raw(RegisteredTask::new(TaskMetadata::simple("charge"), 2)).unwrap();
    assert_eq!(
        plan_client_start(false, &workflows, &tasks).ok().unwrap(),
        StartPlan { start_workflow_worker: true, start_task_worker: true }
    );
}
