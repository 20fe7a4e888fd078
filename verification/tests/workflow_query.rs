#[test]
fn test_workflow_query_client_new() {
    // The query client needs a running server; nothing to check without one.
}

#[test]
fn test_query_result_parsing() {
    let json_bytes = br#"{"status": "active", "count": 42}"#;
    let text = flovyn_sdk::client::workflow_query::query_result(None, json_bytes).unwrap();
    let result: serde_json::Value = serde_json::from_str(&text).unwrap();

    assert_eq!(result["status"], "active");
    assert_eq!(result["count"], 42);
}

#[test]
fn test_query_result_typed_parsing() {
    let json_bytes = br#"{"status": "active", "count": 42}"#;
    let text = flovyn_sdk::client::workflow_query::query_result(None, json_bytes).unwrap();
    let value: serde_json::Value = serde_json::from_str(&text).unwrap();
    let status: String = serde_json::from_value(value["status"].clone()).unwrap();
    let count: i32 = serde_json::from_value(value["count"].clone()).unwrap();

    assert_eq!(status, "active");
    assert_eq!(count, 42);
}

#[test]
fn test_empty_result_handling() {
    let empty_bytes: &[u8] = &[];
    assert_eq!(flovyn_sdk::client::workflow_query::query_result(None, empty_bytes).unwrap(), "null");
}

#[test]
fn test_query_result_errors() {
    match flovyn_sdk::client::workflow_query::query_result(Some("no such query".to_string()), b"") {
        Err(flovyn_sdk::error::FlovynError::Other(m)) => assert_eq!(m, "Query failed: no such query"),
        _ => panic!("expected the query error"),
    }
    assert!(matches!(
        flovyn_sdk::client::workflow_query::query_result(None, b"{oops"),
        Err(flovyn_sdk::error::FlovynError::Serialization(_))
    ));
}
