use flovyn_sdk::workflow::event::EventField;

#[test]
fn a_plain_string_is_quoted() {
    let f = EventField::string("name", "order-1");
    assert_eq!(f.key, "name");
    assert_eq!(f.json, "\"order-1\"");
    assert_eq!(f.text.as_deref(), Some("order-1"));
}

#[test]
fn quotes_and_backslashes_are_escaped() {
    let f = EventField::string("k", "say \"hi\" \\ bye");
    assert_eq!(f.json, "\"say \\\"hi\\\" \\\\ bye\"");
}

#[test]
fn control_characters_are_escaped() {
    let f = EventField::string("k", "a\u{8}b\tc\nd\u{c}e\rf\u{1}g\u{1f}");
    assert_eq!(f.json, "\"a\\bb\\tc\\nd\\fe\\rf\\u0001g\\u001f\"");
}

#[test]
fn other_characters_are_written_as_they_are() {
    let f = EventField::string("k", "é/\u{7f}✓");
    assert_eq!(f.json, "\"é/\u{7f}✓\"");
}
