//! Replay events: the recorded history of a workflow execution.

use vstd::prelude::*;
use crate::common::ids::hex_digit_char;
use crate::common::text::{copy_opt_string, opt_view, str_eq};

verus! {

/// Type of a workflow history event.
#[derive(Debug, Clone, Copy, PartialEq, Eq, Structural, Hash)]
pub enum EventType {
    WorkflowStarted,
    WorkflowCompleted,
    WorkflowExecutionFailed,
    WorkflowSuspended,
    CancellationRequested,
    OperationCompleted,
    StateSet,
    StateCleared,
    TaskScheduled,
    TaskCompleted,
    TaskFailed,
    PromiseCreated,
    PromiseResolved,
    PromiseRejected,
    PromiseTimeout,
    ChildWorkflowInitiated,
    ChildWorkflowStarted,
    ChildWorkflowCompleted,
    ChildWorkflowFailed,
    TimerStarted,
    TimerFired,
    TimerCancelled,
}

/// The wire name of an event type (e.g. `TASK_SCHEDULED`).
pub open spec fn event_type_name(t: EventType) -> Seq<char> {
    match t {
        EventType::WorkflowStarted => "WORKFLOW_STARTED"@,
        EventType::WorkflowCompleted => "WORKFLOW_COMPLETED"@,
        EventType::WorkflowExecutionFailed => "WORKFLOW_EXECUTION_FAILED"@,
        EventType::WorkflowSuspended => "WORKFLOW_SUSPENDED"@,
        EventType::CancellationRequested => "CANCELLATION_REQUESTED"@,
        EventType::OperationCompleted => "OPERATION_COMPLETED"@,
        EventType::StateSet => "STATE_SET"@,
        EventType::StateCleared => "STATE_CLEARED"@,
        EventType::TaskScheduled => "TASK_SCHEDULED"@,
        EventType::TaskCompleted => "TASK_COMPLETED"@,
        EventType::TaskFailed => "TASK_FAILED"@,
        EventType::PromiseCreated => "PROMISE_CREATED"@,
        EventType::PromiseResolved => "PROMISE_RESOLVED"@,
        EventType::PromiseRejected => "PROMISE_REJECTED"@,
        EventType::PromiseTimeout => "PROMISE_TIMEOUT"@,
        EventType::ChildWorkflowInitiated => "CHILD_WORKFLOW_INITIATED"@,
        EventType::ChildWorkflowStarted => "CHILD_WORKFLOW_STARTED"@,
        EventType::ChildWorkflowCompleted => "CHILD_WORKFLOW_COMPLETED"@,
        EventType::ChildWorkflowFailed => "CHILD_WORKFLOW_FAILED"@,
        EventType::TimerStarted => "TIMER_STARTED"@,
        EventType::TimerFired => "TIMER_FIRED"@,
        EventType::TimerCancelled => "TIMER_CANCELLED"@,
    }
}

/// The event type a wire name denotes; unknown names fall back to `WorkflowStarted`.
pub open spec fn event_type_from_name(s: Seq<char>) -> EventType {
    if s == "WORKFLOW_STARTED"@ {
        EventType::WorkflowStarted
    } else if s == "WORKFLOW_COMPLETED"@ {
        EventType::WorkflowCompleted
    } else if s == "WORKFLOW_EXECUTION_FAILED"@ {
        EventType::WorkflowExecutionFailed
    } else if s == "WORKFLOW_SUSPENDED"@ {
        EventType::WorkflowSuspended
    } else if s == "CANCELLATION_REQUESTED"@ {
        EventType::CancellationRequested
    } else if s == "OPERATION_COMPLETED"@ {
        EventType::OperationCompleted
    } else if s == "STATE_SET"@ {
        EventType::StateSet
    } else if s == "STATE_CLEARED"@ {
        EventType::StateCleared
    } else if s == "TASK_SCHEDULED"@ {
        EventType::TaskScheduled
    } else if s == "TASK_COMPLETED"@ {
        EventType::TaskCompleted
    } else if s == "TASK_FAILED"@ {
        EventType::TaskFailed
    } else if s == "PROMISE_CREATED"@ {
        EventType::PromiseCreated
    } else if s == "PROMISE_RESOLVED"@ {
        EventType::PromiseResolved
    } else if s == "PROMISE_REJECTED"@ {
        EventType::PromiseRejected
    } else if s == "PROMISE_TIMEOUT"@ {
        EventType::PromiseTimeout
    } else if s == "CHILD_WORKFLOW_INITIATED"@ {
        EventType::ChildWorkflowInitiated
    } else if s == "CHILD_WORKFLOW_STARTED"@ {
        EventType::ChildWorkflowStarted
    } else if s == "CHILD_WORKFLOW_COMPLETED"@ {
        EventType::ChildWorkflowCompleted
    } else if s == "CHILD_WORKFLOW_FAILED"@ {
        EventType::ChildWorkflowFailed
    } else if s == "TIMER_STARTED"@ {
        EventType::TimerStarted
    } else if s == "TIMER_FIRED"@ {
        EventType::TimerFired
    } else if s == "TIMER_CANCELLED"@ {
        EventType::TimerCancelled
    } else {
        EventType::WorkflowStarted
    }
}

impl EventType {
    /// The wire name of this event type.
    pub fn as_str(&self) -> (r: &'static str)
        ensures
            r@ == event_type_name(*self),
    {
        match self {
            EventType::WorkflowStarted => "WORKFLOW_STARTED",
            EventType::WorkflowCompleted => "WORKFLOW_COMPLETED",
            EventType::WorkflowExecutionFailed => "WORKFLOW_EXECUTION_FAILED",
            EventType::WorkflowSuspended => "WORKFLOW_SUSPENDED",
            EventType::CancellationRequested => "CANCELLATION_REQUESTED",
            EventType::OperationCompleted => "OPERATION_COMPLETED",
            EventType::StateSet => "STATE_SET",
            EventType::StateCleared => "STATE_CLEARED",
            EventType::TaskScheduled => "TASK_SCHEDULED",
            EventType::TaskCompleted => "TASK_COMPLETED",
            EventType::TaskFailed => "TASK_FAILED",
            EventType::PromiseCreated => "PROMISE_CREATED",
            EventType::PromiseResolved => "PROMISE_RESOLVED",
            EventType::PromiseRejected => "PROMISE_REJECTED",
            EventType::PromiseTimeout => "PROMISE_TIMEOUT",
            EventType::ChildWorkflowInitiated => "CHILD_WORKFLOW_INITIATED",
            EventType::ChildWorkflowStarted => "CHILD_WORKFLOW_STARTED",
            EventType::ChildWorkflowCompleted => "CHILD_WORKFLOW_COMPLETED",
            EventType::ChildWorkflowFailed => "CHILD_WORKFLOW_FAILED",
            EventType::TimerStarted => "TIMER_STARTED",
            EventType::TimerFired => "TIMER_FIRED",
            EventType::TimerCancelled => "TIMER_CANCELLED",
        }
    }
}

/// Parse an event type from its wire name. Unknown names are read as
/// `WorkflowStarted`.
pub fn parse_event_type(s: &str) -> (r: EventType)
    ensures
        r == event_type_from_name(s@),
{
    if str_eq(s, "WORKFLOW_STARTED") {
        EventType::WorkflowStarted
    } else if str_eq(s, "WORKFLOW_COMPLETED") {
        EventType::WorkflowCompleted
    } else if str_eq(s, "WORKFLOW_EXECUTION_FAILED") {
        EventType::WorkflowExecutionFailed
    } else if str_eq(s, "WORKFLOW_SUSPENDED") {
        EventType::WorkflowSuspended
    } else if str_eq(s, "CANCELLATION_REQUESTED") {
        EventType::CancellationRequested
    } else if str_eq(s, "OPERATION_COMPLETED") {
        EventType::OperationCompleted
    } else if str_eq(s, "STATE_SET") {
        EventType::StateSet
    } else if str_eq(s, "STATE_CLEARED") {
        EventType::StateCleared
    } else if str_eq(s, "TASK_SCHEDULED") {
        EventType::TaskScheduled
    } else if str_eq(s, "TASK_COMPLETED") {
        EventType::TaskCompleted
    } else if str_eq(s, "TASK_FAILED") {
        EventType::TaskFailed
    } else if str_eq(s, "PROMISE_CREATED") {
        EventType::PromiseCreated
    } else if str_eq(s, "PROMISE_RESOLVED") {
        EventType::PromiseResolved
    } else if str_eq(s, "PROMISE_REJECTED") {
        EventType::PromiseRejected
    } else if str_eq(s, "PROMISE_TIMEOUT") {
        EventType::PromiseTimeout
    } else if str_eq(s, "CHILD_WORKFLOW_INITIATED") {
        EventType::ChildWorkflowInitiated
    } else if str_eq(s, "CHILD_WORKFLOW_STARTED") {
        EventType::ChildWorkflowStarted
    } else if str_eq(s, "CHILD_WORKFLOW_COMPLETED") {
        EventType::ChildWorkflowCompleted
    } else if str_eq(s, "CHILD_WORKFLOW_FAILED") {
        EventType::ChildWorkflowFailed
    } else if str_eq(s, "TIMER_STARTED") {
        EventType::TimerStarted
    } else if str_eq(s, "TIMER_FIRED") {
        EventType::TimerFired
    } else if str_eq(s, "TIMER_CANCELLED") {
        EventType::TimerCancelled
    } else {
        EventType::WorkflowStarted
    }
}

/// One entry of an event's data object: the key, the JSON text of its value,
/// and the value itself when it is a JSON string.
pub struct EventField {
    pub key: String,
    pub json: String,
    pub text: Option<String>,
}

/// An event field as mathematical values.
pub struct EventFieldView {
    pub key: Seq<char>,
    pub json: Seq<char>,
    pub text: Option<Seq<char>>,
}

impl View for EventField {
    type V = EventFieldView;

    open spec fn view(&self) -> EventFieldView {
        EventFieldView {
            key: self.key@,
            json: self.json@,
            text: match self.text {
                Some(t) => Some(t@),
                None => None,
            },
        }
    }
}

/// How a character is written inside a JSON string: the quote and the
/// backslash are escaped with a backslash; the control characters below
/// U+0020 are escaped as `\b`, `\t`, `\n`, `\f` and `\r` where JSON has a
/// short form, and as `\u00` and two lower-case hex digits otherwise; every
/// other character is written as it is.
pub open spec fn json_escaped_char(c: char) -> Seq<char> {
    if c == '"' {
        seq!['\\', '"']
    } else if c == '\\' {
        seq!['\\', '\\']
    } else if c == '\u{8}' {
        seq!['\\', 'b']
    } else if c == '\t' {
        seq!['\\', 't']
    } else if c == '\n' {
        seq!['\\', 'n']
    } else if c == '\u{c}' {
        seq!['\\', 'f']
    } else if c == '\r' {
        seq!['\\', 'r']
    } else if (c as nat) < 0x20 {
        seq!['\\', 'u', '0', '0', hex_digit_char(c as nat / 16), hex_digit_char(c as nat % 16)]
    } else {
        seq![c]
    }
}

/// The characters of `s`, each written as inside a JSON string.
pub open spec fn json_escaped(s: Seq<char>) -> Seq<char>
    decreases s.len(),
{
    if s.len() == 0 {
        Seq::empty()
    } else {
        json_escaped(s.drop_last()) + json_escaped_char(s.last())
    }
}

/// The JSON string literal that stands for `s`: its characters escaped,
/// between quotes.
pub open spec fn json_quoted(s: Seq<char>) -> Seq<char> {
    seq!['"'] + json_escaped(s) + seq!['"']
}

/// The JSON string literal of `s`.
///
/// Trusted: `serde_json::to_string` on a `&str`, which writes the string
/// between quotes and escapes, by the table `ESCAPE` in `ser.rs`, the quote,
/// the backslash and the bytes below 0x20, each as `json_escaped_char` says.
/// Serializing a `str` does not fail.
#[verifier::external_body]
pub(crate) fn json_quote(s: &str) -> (r: String)
    ensures
        r@ == json_quoted(s@),
{
    match serde_json::to_string(s) {
        Ok(t) => t,
        Err(_) => String::new(),
    }
}

/// The string that the JSON text `text` stands for: `None` unless the text
/// is a JSON string.
pub uninterp spec fn spec_json_string_value(text: Seq<char>) -> Option<Seq<char>>;

/// The string that the JSON text `text` stands for, if it is a JSON string.
///
/// Trusted: `serde_json::from_str::<String>`, kept when it succeeds; the
/// result depends on the text alone and is named, not described.
#[verifier::external_body]
pub(crate) fn json_string_value(text: &str) -> (r: Option<String>)
    ensures
        opt_view(r) == spec_json_string_value(text@),
{
    serde_json::from_str::<String>(text).ok()
}

/// The field `key` holding the JSON string `s`.
pub open spec fn string_field(key: Seq<char>, s: Seq<char>) -> EventFieldView {
    EventFieldView { key, json: json_quoted(s), text: Some(s) }
}

/// The field `key` holding the JSON value written `json`.
pub open spec fn value_field(key: Seq<char>, json: Seq<char>) -> EventFieldView {
    EventFieldView { key, json, text: spec_json_string_value(json) }
}

impl EventField {
    /// The field `key` holding the string `s`.
    pub fn string(key: &str, s: &str) -> (r: Self)
        ensures
            r@ == string_field(key@, s@),
    {
        EventField { key: String::from_str(key), json: json_quote(s), text: Some(String::from_str(s)) }
    }

    /// The field `key` holding the JSON value written `json`.
    pub fn value(key: &str, json: String) -> (r: Self)
        ensures
            r@ == value_field(key@, json@),
    {
        let text = json_string_value(json.as_str());
        EventField { key: String::from_str(key), json, text }
    }
}

/// An event of the workflow history, as replay reads it.
pub struct ReplayEvent {
    pub sequence_number: i32,
    pub event_type: EventType,
    pub fields: Vec<EventField>,
}

/// A replay event as mathematical values.
pub struct ReplayEventView {
    pub sequence_number: int,
    pub event_type: EventType,
    pub fields: Seq<EventFieldView>,
}

impl View for ReplayEvent {
    type V = ReplayEventView;

    open spec fn view(&self) -> ReplayEventView {
        ReplayEventView {
            sequence_number: self.sequence_number as int,
            event_type: self.event_type,
            fields: self.fields@.map_values(|f: EventField| f@),
        }
    }
}

/// A history as mathematical values.
pub open spec fn history_view(evs: Seq<ReplayEvent>) -> Seq<ReplayEventView> {
    evs.map_values(|e: ReplayEvent| e@)
}

/// The first field of `fields` named `key`.
pub open spec fn lookup_field(fields: Seq<EventFieldView>, key: Seq<char>) -> Option<EventFieldView>
    decreases fields.len(),
{
    if fields.len() == 0 {
        None
    } else if fields[0].key == key {
        Some(fields[0])
    } else {
        lookup_field(fields.drop_first(), key)
    }
}

/// The string value of field `key`, if the field exists and holds a JSON string.
pub open spec fn field_str(e: ReplayEventView, key: Seq<char>) -> Option<Seq<char>> {
    match lookup_field(e.fields, key) {
        Some(f) => f.text,
        None => None,
    }
}

/// The JSON text of field `key`, if the field exists.
pub open spec fn field_json(e: ReplayEventView, key: Seq<char>) -> Option<Seq<char>> {
    match lookup_field(e.fields, key) {
        Some(f) => Some(f.json),
        None => None,
    }
}

impl ReplayEvent {
    /// Create an event.
    pub fn new(sequence_number: i32, event_type: EventType, fields: Vec<EventField>) -> (r: Self)
        ensures
            r.sequence_number == sequence_number,
            r.event_type == event_type,
            r.fields == fields,
    {
        ReplayEvent { sequence_number, event_type, fields }
    }

    /// The event's type.
    pub fn event_type(&self) -> (r: EventType)
        ensures
            r == self.event_type,
    {
        self.event_type
    }

    /// The event's sequence number.
    pub fn sequence_number(&self) -> (r: i32)
        ensures
            r == self.sequence_number,
    {
        self.sequence_number
    }

    fn find_field(&self, key: &str) -> (r: Option<usize>)
        ensures
            match r {
                Some(i) => i < self.fields@.len() && lookup_field(self@.fields, key@) == Some(
                    self.fields@[i as int]@,
                ),
                None => lookup_field(self@.fields, key@) is None,
            },
    {
        let ghost all = self@.fields;
        let mut i: usize = 0;
        assert(all.skip(0) =~= all);
        while i < self.fields.len()
            invariant
                i <= self.fields@.len(),
                all == self@.fields,
                all.len() == self.fields@.len(),
                lookup_field(all, key@) == lookup_field(all.skip(i as int), key@),
            decreases self.fields@.len() - i,
        {
            let ghost rest = all.skip(i as int);
            assert(rest[0] == self.fields@[i as int]@);
            assert(rest.drop_first() =~= all.skip(i + 1));
            if str_eq(self.fields[i].key.as_str(), key) {
                return Some(i);
            }
            i = i + 1;
        }
        None
    }

    /// The string value of field `key`.
    pub fn get_string(&self, key: &str) -> (r: Option<String>)
        ensures
            match r {
                Some(s) => field_str(self@, key@) == Some(s@),
                None => field_str(self@, key@) is None,
            },
    {
        match self.find_field(key) {
            Some(i) => match &self.fields[i].text {
                Some(t) => Some(t.clone()),
                None => None,
            },
            None => None,
        }
    }

    /// The JSON text of field `key`.
    pub fn get(&self, key: &str) -> (r: Option<String>)
        ensures
            match r {
                Some(s) => field_json(self@, key@) == Some(s@),
                None => field_json(self@, key@) is None,
            },
    {
        match self.find_field(key) {
            Some(i) => Some(self.fields[i].json.clone()),
            None => None,
        }
    }
}

/// What the fields of the JSON object `text` are: `None` when the text is
/// not a JSON object.
pub uninterp spec fn spec_json_object_fields(text: Seq<char>) -> Option<Seq<EventFieldView>>;

/// The fields of the JSON object `text`, or nothing when it is not a JSON
/// object.
///
/// Trusted: parses with `serde_json::from_str` into a `Value`; for an object
/// lists its entries, each with its value's compact JSON text
/// (`Value::to_string`) and, for a string value, the string itself. The
/// result depends on the text alone and is named, not described.
#[verifier::external_body]
pub(crate) fn json_object_fields(text: &str) -> (r: Option<Vec<EventField>>)
    ensures
        match r {
            Some(v) => spec_json_object_fields(text@) == Some(v@.map_values(|f: EventField| f@)),
            None => spec_json_object_fields(text@) is None,
        },
{
    match serde_json::from_str::<serde_json::Value>(text) {
        Ok(serde_json::Value::Object(m)) => Some(
            m.iter().map(|(k, v)| EventField {
                key: k.clone(),
                json: v.to_string(),
                text: v.as_str().map(|s| s.to_string()),
            }).collect(),
        ),
        _ => None,
    }
}

impl ReplayEvent {
    /// An event whose data is the JSON object `data`; nothing when `data`
    /// is not a JSON object.
    pub fn from_json(sequence_number: i32, event_type: EventType, data: &str) -> (r: Option<Self>)
        ensures
            match r {
                Some(e) => e.sequence_number == sequence_number && e.event_type == event_type
                    && spec_json_object_fields(data@) == Some(e@.fields),
                None => spec_json_object_fields(data@) is None,
            },
    {
        match json_object_fields(data) {
            Some(fields) => Some(ReplayEvent::new(sequence_number, event_type, fields)),
            None => None,
        }
    }
}

/// Member `key` of the JSON text `value`: none when the value is not an
/// object or has no such member.
pub open spec fn json_member_field(value: Seq<char>, key: Seq<char>) -> Option<EventFieldView> {
    match spec_json_object_fields(value) {
        Some(fields) => lookup_field(fields, key),
        None => None,
    }
}

fn copy_field(f: &EventField) -> (r: EventField)
    ensures
        r@ == f@,
{
    EventField { key: f.key.clone(), json: f.json.clone(), text: copy_opt_string(&f.text) }
}

/// Member `key` of the JSON object `value`.
pub fn json_member(value: &str, key: &str) -> (r: Option<EventField>)
    ensures
        match r {
            Some(f) => json_member_field(value@, key@) == Some(f@),
            None => json_member_field(value@, key@) is None,
        },
{
    match json_object_fields(value) {
        None => None,
        Some(fields) => {
            let ghost all = fields@.map_values(|f: EventField| f@);
            let mut i: usize = 0;
            assert(all.skip(0) =~= all);
            while i < fields.len()
                invariant
                    i <= fields@.len(),
                    all == fields@.map_values(|f: EventField| f@),
                    spec_json_object_fields(value@) == Some(all),
                    lookup_field(all, key@) == lookup_field(all.skip(i as int), key@),
                decreases fields@.len() - i,
            {
                let ghost rest = all.skip(i as int);
                assert(rest[0] == fields@[i as int]@);
                assert(rest.drop_first() =~= all.skip(i + 1));
                if str_eq(fields[i].key.as_str(), key) {
                    assert(lookup_field(rest, key@) == Some(rest[0]));
                    return Some(copy_field(&fields[i]));
                }
                i = i + 1;
            }
            None
        },
    }
}

} // verus!
