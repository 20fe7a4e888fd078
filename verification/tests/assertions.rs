use flovyn_sdk::error::FlovynError;
use flovyn_sdk::testing::assertions::{
    assert_json_has, assert_json_has_key, assert_json_missing_key, assert_task_cancelled,
    assert_task_failed, assert_task_failed_with, assert_task_succeeded, assert_task_succeeded_with,
    assert_workflow_cancelled, assert_workflow_completed, assert_workflow_completed_with,
    assert_workflow_failed, assert_workflow_failed_with,
};

fn check(outcome: Result<(), String>) {
    if let Err(message) = outcome {
        panic!("{}", message);
    }
}

#[test]
fn test_assert_workflow_completed_success() {
    let result: Result<String, FlovynError> = Ok("{\"status\":\"done\"}".to_string());
    check(assert_workflow_completed(&result));
}

#[test]
#[should_panic(expected = "Expected workflow to complete successfully")]
fn test_assert_workflow_completed_failure() {
    let result: Result<String, FlovynError> = Err(FlovynError::Other("test error".to_string()));
    check(assert_workflow_completed(&result));
}

#[test]
fn test_assert_workflow_completed_failure_message() {
    let result: Result<String, FlovynError> = Err(FlovynError::Other("test error".to_string()));
    assert_eq!(
        assert_workflow_completed(&result),
        Err("Expected workflow to complete successfully, but got error: test error".to_string())
    );
}

#[test]
fn test_assert_workflow_completed_with_success() {
    let result: Result<String, FlovynError> = Ok("{\"value\": 42}".to_string());
    check(assert_workflow_completed_with(&result, "{\"value\":42}"));
}

#[test]
#[should_panic(expected = "Workflow output mismatch")]
fn test_assert_workflow_completed_with_mismatch() {
    let result: Result<String, FlovynError> = Ok("{\"value\":42}".to_string());
    check(assert_workflow_completed_with(&result, "{\"value\":100}"));
}

#[test]
fn test_assert_workflow_completed_with_mismatch_message() {
    let result: Result<String, FlovynError> = Ok("42".to_string());
    assert_eq!(
        assert_workflow_completed_with(&result, "100"),
        Err("Workflow output mismatch.\nExpected: 100\nActual: 42".to_string())
    );
}

#[test]
fn test_assert_workflow_failed_success() {
    let result: Result<String, FlovynError> = Err(FlovynError::Other("error".to_string()));
    check(assert_workflow_failed(&result));
}

#[test]
#[should_panic(expected = "Expected workflow to fail")]
fn test_assert_workflow_failed_actually_succeeded() {
    let result: Result<String, FlovynError> = Ok("{}".to_string());
    check(assert_workflow_failed(&result));
}

#[test]
fn test_assert_workflow_failed_with_success() {
    let result: Result<String, FlovynError> =
        Err(FlovynError::Other("specific error message".to_string()));
    check(assert_workflow_failed_with(&result, "specific error"));
}

#[test]
#[should_panic(expected = "Expected error to contain")]
fn test_assert_workflow_failed_with_wrong_error() {
    let result: Result<String, FlovynError> = Err(FlovynError::Other("different error".to_string()));
    check(assert_workflow_failed_with(&result, "specific error"));
}

#[test]
fn test_assert_workflow_cancelled_success() {
    let result: Result<String, FlovynError> =
        Err(FlovynError::WorkflowCancelled("cancelled".to_string()));
    check(assert_workflow_cancelled(&result));
}

#[test]
#[should_panic(expected = "Expected workflow to be cancelled")]
fn test_assert_workflow_cancelled_not_cancelled() {
    let result: Result<String, FlovynError> = Err(FlovynError::Other("error".to_string()));
    check(assert_workflow_cancelled(&result));
}

#[test]
fn test_assert_task_succeeded_success() {
    let result: Result<String, FlovynError> = Ok("{\"done\":true}".to_string());
    check(assert_task_succeeded(&result));
}

#[test]
fn test_assert_task_succeeded_with_success() {
    let result: Result<String, FlovynError> = Ok("{\"count\":5}".to_string());
    check(assert_task_succeeded_with(&result, "{\"count\": 5}"));
}

#[test]
fn test_assert_task_failed_success() {
    let result: Result<String, FlovynError> = Err(FlovynError::Other("task error".to_string()));
    check(assert_task_failed(&result));
}

#[test]
fn test_assert_task_failed_with_messages() {
    let result: Result<String, FlovynError> = Err(FlovynError::TaskFailed("disk full".to_string()));
    assert!(assert_task_failed_with(&result, "disk").is_ok());
    assert_eq!(
        assert_task_failed_with(&result, "network"),
        Err("Expected error to contain 'network', but got: Task failed: disk full".to_string())
    );
    let ok: Result<String, FlovynError> = Ok("1".to_string());
    assert_eq!(
        assert_task_failed_with(&ok, "x"),
        Err("Expected task to fail with error containing 'x', but got success with output: 1"
            .to_string())
    );
}

#[test]
fn test_assert_task_cancelled_success() {
    let result: Result<String, FlovynError> = Err(FlovynError::TaskCancelled);
    check(assert_task_cancelled(&result));
}

#[test]
fn test_assert_task_cancelled_other_error() {
    let result: Result<String, FlovynError> = Err(FlovynError::Other("boom".to_string()));
    assert_eq!(
        assert_task_cancelled(&result),
        Err("Expected task to be cancelled, but got different error: boom".to_string())
    );
}

#[test]
fn test_assert_json_has_success() {
    let value = "{\"name\":\"test\",\"count\":42}";
    check(assert_json_has(value, "name", "\"test\""));
    check(assert_json_has(value, "count", "42"));
}

#[test]
#[should_panic(expected = "Expected key 'missing'")]
fn test_assert_json_has_missing_key() {
    let value = "{\"name\":\"test\"}";
    check(assert_json_has(value, "missing", "\"value\""));
}

#[test]
#[should_panic(expected = "has unexpected value")]
fn test_assert_json_has_wrong_value() {
    let value = "{\"name\":\"test\"}";
    check(assert_json_has(value, "name", "\"wrong\""));
}

#[test]
fn test_assert_json_has_missing_key_message() {
    let value = "{ \"name\" : \"test\" }";
    assert_eq!(
        assert_json_has(value, "missing", "1"),
        Err("Expected key 'missing' not found in value: {\"name\":\"test\"}".to_string())
    );
}

#[test]
fn test_assert_json_has_key_success() {
    let value = "{\"name\":\"test\"}";
    check(assert_json_has_key(value, "name"));
}

#[test]
#[should_panic(expected = "Expected key 'missing'")]
fn test_assert_json_has_key_missing() {
    let value = "{\"name\":\"test\"}";
    check(assert_json_has_key(value, "missing"));
}

#[test]
fn test_assert_json_missing_key_success() {
    let value = "{\"name\":\"test\"}";
    check(assert_json_missing_key(value, "missing"));
}

#[test]
#[should_panic(expected = "Expected key 'name' to be absent")]
fn test_assert_json_missing_key_present() {
    let value = "{\"name\":\"test\"}";
    check(assert_json_missing_key(value, "name"));
}

#[test]
fn test_assert_output_mismatch_is_pretty_printed() {
    let result: Result<String, FlovynError> = Ok("{\"a\":1}".to_string());
    assert_eq!(
        assert_task_succeeded_with(&result, "{\"a\":2}"),
        Err("Task output mismatch.\nExpected: {\n  \"a\": 2\n}\nActual: {\n  \"a\": 1\n}".to_string())
    );
}
