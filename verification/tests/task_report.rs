use flovyn_sdk::task::executor::TaskExecutionResult;
use flovyn_sdk::worker::task_report::{
    finish_task_span, task_report, task_span, task_succeeded, TaskReport,
};

#[test]
fn test_task_report_for_each_result() {
    assert_eq!(
        task_report(TaskExecutionResult::Completed { output: "{\"n\":1}".to_string() }),
        TaskReport::Complete("{\"n\":1}".to_string())
    );
    assert_eq!(
        task_report(TaskExecutionResult::Failed {
            error_message: "boom".to_string(),
            error_type: None,
            is_retryable: false,
        }),
        TaskReport::Fail("boom".to_string())
    );
    assert_eq!(task_report(TaskExecutionResult::Cancelled), TaskReport::Fail("Task cancelled".to_string()));
    assert_eq!(
        task_report(TaskExecutionResult::TimedOut),
        TaskReport::Fail("Task execution timed out".to_string())
    );
}

#[test]
fn test_task_succeeded() {
    assert!(task_succeeded(&TaskExecutionResult::Completed { output: "1".to_string() }));
    assert!(!task_succeeded(&TaskExecutionResult::TimedOut));
}

#[test]
fn test_task_span_and_finish() {
    let span = task_span(None, 0x0123_4567_89ab_cdef_0123_4567_89ab_cdef, "resize", 2);
    let finished = finish_task_span(span, &TaskExecutionResult::Cancelled);
    assert_eq!(finished.workflow_id, "standalone");
    assert_eq!(finished.task_id.as_deref(), Some("01234567-89ab-cdef-0123-456789abcdef"));
    assert!(finished.is_error);
    assert_eq!(finished.error_type.as_deref(), Some("TaskCancelled"));
    assert_eq!(finished.error_message.as_deref(), Some("Task was cancelled"));

    let span = task_span(Some(1), 2, "resize", 1);
    let finished = finish_task_span(span, &TaskExecutionResult::Completed { output: "1".to_string() });
    assert_eq!(finished.workflow_id, "00000000-0000-0000-0000-000000000001");
    assert!(!finished.is_error);
}
