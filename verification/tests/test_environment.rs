use flovyn_sdk::error::FlovynError;
use flovyn_sdk::task::registry::{RegisteredTask, TaskMetadata};
use flovyn_sdk::testing::test_environment::{ExecutionType, TestWorkflowEnvironment};
use flovyn_sdk::worker::registry::{RegisteredWorkflow, WorkflowMetadata};

type Run = fn(&str) -> Result<String, FlovynError>;
type Env = TestWorkflowEnvironment<Run, Run>;

fn test_workflow(input: &str) -> Result<String, FlovynError> {
    let v: serde_json::Value = serde_json::from_str(input).unwrap();
    let processed = v.get("value").cloned().unwrap_or(serde_json::Value::from(0));
    let mut out = serde_json::Map::new();
    out.insert("processed".to_string(), processed);
    Ok(serde_json::Value::Object(out).to_string())
}

fn test_task(input: &str) -> Result<String, FlovynError> {
    let v: serde_json::Value = serde_json::from_str(input).unwrap();
    let data = v.get("data").cloned().unwrap_or(serde_json::Value::from("none"));
    let mut out = serde_json::Map::new();
    out.insert("task_result".to_string(), data);
    Ok(serde_json::Value::Object(out).to_string())
}

fn failing_task(_input: &str) -> Result<String, FlovynError> {
    Err(FlovynError::TaskFailed("boom".to_string()))
}

fn register_test_workflow(env: &mut Env) -> Result<(), FlovynError> {
    env.register_workflow(RegisteredWorkflow::new(
        WorkflowMetadata::simple("test-workflow"),
        test_workflow as Run,
    ))
}

fn register_test_task(env: &mut Env) -> Result<(), FlovynError> {
    env.register_task(RegisteredTask::new(TaskMetadata::simple("test-task"), test_task as Run))
}

fn execute_workflow(env: &mut Env, kind: &str, input: &str) -> Result<String, FlovynError> {
    let (result, started_at) = match env.prepare_workflow(kind, input) {
        Err(e) => return Err(e),
        Ok((w, _ctx, started_at)) => ((w.execute_fn())(input), started_at),
    };
    env.record_workflow(kind, input.to_string(), &result, started_at);
    result
}

fn execute_task(env: &mut Env, kind: &str, input: &str) -> Result<String, FlovynError> {
    let (result, started_at) = match env.prepare_task(kind) {
        Err(e) => return Err(e),
        Ok((t, _ctx, started_at)) => ((t.execute_fn())(input), started_at),
    };
    env.record_task(kind, input.to_string(), &result, started_at);
    result
}

#[test]
fn test_environment_new() {
    let env = Env::new();
    assert!(env.org_id() != 0);
}

#[test]
fn test_environment_with_initial_time() {
    let env = Env::with_initial_time(1000);
    assert_eq!(env.time_controller().current_time_millis(), 1000);
}

#[test]
fn test_register_workflow() {
    let mut env = Env::new();
    assert!(register_test_workflow(&mut env).is_ok());
    assert!(matches!(register_test_workflow(&mut env), Err(FlovynError::InvalidConfiguration(_))));
}

#[test]
fn test_register_task() {
    let mut env = Env::new();
    assert!(register_test_task(&mut env).is_ok());
    assert!(matches!(register_test_task(&mut env), Err(FlovynError::InvalidConfiguration(_))));
}

#[test]
fn test_execute_workflow() {
    let mut env = Env::new();
    register_test_workflow(&mut env).unwrap();

    let result = execute_workflow(&mut env, "test-workflow", "{\"value\":42}");
    assert!(result.is_ok());
    assert_eq!(result.unwrap(), "{\"processed\":42}");
}

#[test]
fn test_execute_workflow_not_registered() {
    let mut env = Env::new();
    let result = execute_workflow(&mut env, "nonexistent", "{}");
    match result {
        Err(FlovynError::Other(msg)) => assert_eq!(msg, "Workflow not registered: nonexistent"),
        _ => panic!("expected a not-registered error"),
    }
    assert!(env.execution_history().is_empty());
}

#[test]
fn test_execute_task() {
    let mut env = Env::new();
    register_test_task(&mut env).unwrap();

    let result = execute_task(&mut env, "test-task", "{\"data\":\"hello\"}");
    assert!(result.is_ok());
    assert_eq!(result.unwrap(), "{\"task_result\":\"hello\"}");
}

#[test]
fn test_execute_task_not_registered() {
    let mut env = Env::new();
    let result = execute_task(&mut env, "nonexistent", "{}");
    match result {
        Err(FlovynError::Other(msg)) => assert_eq!(msg, "Task not registered: nonexistent"),
        _ => panic!("expected a not-registered error"),
    }
}

#[test]
fn test_execution_history() {
    let mut env = Env::new();
    register_test_workflow(&mut env).unwrap();
    register_test_task(&mut env).unwrap();

    execute_workflow(&mut env, "test-workflow", "{}").unwrap();
    execute_task(&mut env, "test-task", "{}").unwrap();

    let history = env.execution_history();
    assert_eq!(history.len(), 2);

    let workflows = env.workflow_executions();
    assert_eq!(workflows.len(), 1);
    assert_eq!(workflows[0].kind, "test-workflow");
    assert_eq!(workflows[0].execution_type, ExecutionType::Workflow);
    assert_eq!(workflows[0].output, Some("{\"processed\":0}".to_string()));

    let tasks = env.task_executions();
    assert_eq!(tasks.len(), 1);
    assert_eq!(tasks[0].kind, "test-task");
}

#[test]
fn test_execution_history_records_errors_and_times() {
    let mut env = Env::with_initial_time(2000);
    env.register_task(RegisteredTask::new(TaskMetadata::simple("bad"), failing_task as Run))
        .unwrap();
    assert!(execute_task(&mut env, "bad", "{}").is_err());

    let history = env.execution_history();
    assert_eq!(history.len(), 1);
    assert_eq!(history[0].output, None);
    assert_eq!(history[0].error, Some("Task failed: boom".to_string()));
    assert_eq!(history[0].started_at, 2000);
    assert_eq!(history[0].completed_at, Some(2000));
    assert_eq!(history[0].input, "{}");
}

#[test]
fn test_clear_history() {
    let mut env = Env::new();
    register_test_workflow(&mut env).unwrap();

    execute_workflow(&mut env, "test-workflow", "{}").unwrap();
    assert_eq!(env.execution_history().len(), 1);

    env.clear_history();
    assert!(env.execution_history().is_empty());
}

#[test]
fn test_advance_time() {
    let mut env = Env::with_initial_time(1000);

    env.advance_time(5000);
    assert_eq!(env.time_controller().current_time_millis(), 6000);
}

#[test]
fn test_set_task_result() {
    let mut env = Env::new();
    register_test_workflow(&mut env).unwrap();
    env.set_task_result("external-task", "{\"result\":\"ok\"}".to_string());
    let (_, mut ctx, _) = env.prepare_workflow("test-workflow", "{}").unwrap();
    assert_eq!(ctx.schedule_raw("external-task", "{}".to_string()).unwrap(), "{\"result\":\"ok\"}");
    assert_eq!(ctx.tenant_id(), env.org_id());
}

#[test]
fn test_set_promise_result() {
    let mut env = Env::new();
    register_test_workflow(&mut env).unwrap();
    env.set_promise_result("approval", "{\"approved\":true}".to_string());
    let (_, mut ctx, _) = env.prepare_workflow("test-workflow", "{}").unwrap();
    assert_eq!(ctx.promise_raw("approval").unwrap(), "{\"approved\":true}");
}
