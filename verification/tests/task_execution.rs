use flovyn_sdk::client::task_execution::{
    state_value, submit_task_fields, submit_task_result, task_execution_info, StreamSequence,
    SubmitTaskResult, TaskExecutionInfo,
};

#[test]
fn test_task_execution_info_debug() {
    let info = TaskExecutionInfo {
        id: 7,
        workflow_execution_id: Some(8),
        task_type: "process-image".to_string(),
        input: "{\"url\":\"https://example.com/image.jpg\"}".to_string(),
        execution_count: 1,
        queue: "default".to_string(),
    };

    let debug_str = format!("{:?}", info);
    assert!(debug_str.contains("process-image"));
}

#[test]
fn test_task_execution_info_standalone() {
    let info = TaskExecutionInfo {
        id: 7,
        workflow_execution_id: None,
        task_type: "standalone-task".to_string(),
        input: "{}".to_string(),
        execution_count: 2,
        queue: "gpu".to_string(),
    };

    assert!(info.workflow_execution_id.is_none());
    assert_eq!(info.execution_count, 2);
    assert_eq!(info.queue, "gpu");
}

#[test]
fn test_submit_task_result() {
    let result = SubmitTaskResult {
        task_execution_id: 9,
        idempotency_key_used: false,
        idempotency_key_new: true,
    };

    assert!(!result.idempotency_key_used);
    assert!(result.idempotency_key_new);
}

#[test]
fn test_submit_task_result_parses_id() {
    let r = submit_task_result("00000000-0000-0000-0000-00000000002a", true, false);
    assert_eq!(r.task_execution_id, 42);
    assert!(r.idempotency_key_used);
    let bad = submit_task_result("not-a-uuid", false, false);
    assert_eq!(bad.task_execution_id, 0);
}

#[test]
fn test_task_execution_info_from_reply() {
    let info = task_execution_info(
        "00000000-0000-0000-0000-000000000001",
        "",
        "resize".to_string(),
        b"{ \"w\" : 10 }",
        3,
        "gpu".to_string(),
    );
    assert_eq!(info.id, 1);
    assert_eq!(info.workflow_execution_id, None);
    assert_eq!(info.input, "{\"w\":10}");
    assert_eq!(info.execution_count, 3);

    let info = task_execution_info("x", "00000000-0000-0000-0000-000000000002", "t".to_string(), b"oops", 1, "q".to_string());
    assert_eq!(info.id, 0);
    assert_eq!(info.workflow_execution_id, Some(2));
    assert_eq!(info.input, "null");
}

#[test]
fn test_state_value_serialization() {
    let bytes = b"{\"counter\":42,\"status\":\"processing\"}";
    let parsed = state_value(true, bytes).unwrap().unwrap();
    let v: serde_json::Value = serde_json::from_str(&parsed).unwrap();
    assert_eq!(v["counter"], 42);
    assert_eq!(v["status"], "processing");
}

#[test]
fn test_empty_state_handling() {
    let empty_bytes: &[u8] = &[];
    assert_eq!(state_value(true, empty_bytes), Some(Some("null".to_string())));
    assert_eq!(state_value(false, empty_bytes), Some(None));
    assert_eq!(state_value(true, b"{not json"), None);
}

#[test]
fn test_state_keys_result() {
    let keys = vec!["counter".to_string(), "status".to_string(), "lastUpdated".to_string()];

    assert_eq!(keys.len(), 3);
    assert!(keys.contains(&"counter".to_string()));
}

#[test]
fn test_submit_task_fields() {
    let f = submit_task_fields("tenant", "charge", "{}".to_string(), None, 30000, 3, None);
    assert_eq!(f.workflow_execution_id, "");
    assert_eq!(f.queue, "default");
    assert_eq!(f.max_retries, 3);
    assert_eq!(f.timeout_ms, 30000);
    let f = submit_task_fields("tenant", "charge", "{}".to_string(), Some(1), 1, 5, Some("gpu"));
    assert_eq!(f.workflow_execution_id, "00000000-0000-0000-0000-000000000001");
    assert_eq!(f.queue, "gpu");
}

#[test]
fn test_stream_sequence() {
    let mut s = StreamSequence::new();
    assert_eq!(s.next_sequence(), 0);
    assert_eq!(s.next_sequence(), 1);
    s.reset();
    assert_eq!(s.next_sequence(), 0);
}
