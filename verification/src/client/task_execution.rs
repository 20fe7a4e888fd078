//! The task execution service's messages as the worker builds and reads
//! them: what a task submission carries, what a polled task holds, task
//! state read back, and the numbering of streamed task events.

use crate::common::ids::{uuid_text, uuid_to_text};
use crate::common::text::opt_view;
use vstd::prelude::*;

verus! {

/// The UUID that `text` spells, if it spells one.
pub uninterp spec fn spec_uuid_parse(text: Seq<char>) -> Option<u128>;

/// The UUID that `text` spells.
///
/// Trusted: `uuid::Uuid::parse_str`, kept when it succeeds, as its 128-bit
/// value. The result depends on the text alone and is named, not described.
#[verifier::external_body]
pub(crate) fn uuid_parse(text: &str) -> (r: Option<u128>)
    ensures
        r == spec_uuid_parse(text@),
{
    match uuid::Uuid::parse_str(text) {
        Ok(u) => Some(u.as_u128()),
        Err(_) => None,
    }
}

/// The compact JSON text of the value that the bytes `bytes` hold, or the
/// message of the error that reading them met.
pub uninterp spec fn spec_json_parse_bytes(bytes: Seq<u8>) -> Result<Seq<char>, Seq<char>>;

/// The JSON value in `bytes`, written compactly, or the parse error's
/// message.
///
/// Trusted: `serde_json::from_slice::<Value>`; on success `Value::to_string`,
/// on failure the error's `Display` text. The result depends on the bytes
/// alone and is named, not described.
#[verifier::external_body]
pub(crate) fn json_parse_bytes(bytes: &[u8]) -> (r: Result<String, String>)
    ensures
        match r {
            Ok(v) => spec_json_parse_bytes(bytes@) == Ok::<Seq<char>, Seq<char>>(v@),
            Err(m) => spec_json_parse_bytes(bytes@) == Err::<Seq<char>, Seq<char>>(m@),
        },
{
    match serde_json::from_slice::<serde_json::Value>(bytes) {
        Ok(v) => Ok(v.to_string()),
        Err(e) => Err(e.to_string()),
    }
}

/// The compact JSON text of the value the bytes hold, if they hold one.
pub open spec fn json_in_bytes(bytes: Seq<u8>) -> Option<Seq<char>> {
    match spec_json_parse_bytes(bytes) {
        Ok(v) => Some(v),
        Err(_) => None,
    }
}

fn json_from_bytes(bytes: &[u8]) -> (r: Option<String>)
    ensures
        opt_view(r) == json_in_bytes(bytes@),
{
    match json_parse_bytes(bytes) {
        Ok(v) => Some(v),
        Err(_) => None,
    }
}

/// The result of submitting a task.
#[derive(Debug, Clone)]
pub struct SubmitTaskResult {
    pub task_execution_id: u128,
    pub idempotency_key_used: bool,
    pub idempotency_key_new: bool,
}

/// A task the worker polled.
#[derive(Debug, Clone)]
pub struct TaskExecutionInfo {
    pub id: u128,
    pub workflow_execution_id: Option<u128>,
    pub task_type: String,
    /// The input, as JSON text.
    pub input: String,
    pub execution_count: u32,
    pub queue: String,
}

/// What a task submission carries.
#[derive(Debug, Clone)]
pub struct SubmitTaskFields {
    /// The scheduling workflow's ID, empty for a standalone task.
    pub workflow_execution_id: String,
    pub tenant_id: String,
    pub task_type: String,
    /// The input, as JSON text.
    pub input: String,
    pub max_retries: i32,
    pub timeout_ms: i64,
    pub queue: String,
}

/// The submission of a task of `task_type` with `input` for `tenant_id`:
/// the workflow's ID written out (empty when there is none), the retry
/// limit as the protocol's signed integer, and the queue `default` when
/// none is named.
pub fn submit_task_fields(
    tenant_id: &str,
    task_type: &str,
    input: String,
    workflow_execution_id: Option<u128>,
    timeout_ms: i64,
    max_retries: u32,
    queue: Option<&str>,
) -> (r: SubmitTaskFields)
    ensures
        r.workflow_execution_id@ == match workflow_execution_id {
            Some(id) => uuid_text(id),
            None => Seq::empty(),
        },
        r.tenant_id@ == tenant_id@,
        r.task_type@ == task_type@,
        r.input@ == input@,
        r.max_retries == max_retries as i32,
        r.timeout_ms == timeout_ms,
        r.queue@ == match queue {
            Some(q) => q@,
            None => "default"@,
        },
{
    let workflow_id = match workflow_execution_id {
        Some(id) => uuid_to_text(id),
        None => String::new(),
    };
    let queue_name = match queue {
        Some(q) => String::from_str(q),
        None => String::from_str("default"),
    };
    SubmitTaskFields {
        workflow_execution_id: workflow_id,
        tenant_id: String::from_str(tenant_id),
        task_type: String::from_str(task_type),
        input,
        max_retries: max_retries as i32,
        timeout_ms,
        queue: queue_name,
    }
}

/// The result of a submission whose reply names the task execution
/// `task_execution_id`; an ID that does not parse reads as the nil UUID.
pub fn submit_task_result(
    task_execution_id: &str,
    idempotency_key_used: bool,
    idempotency_key_new: bool,
) -> (r: SubmitTaskResult)
    ensures
        r.task_execution_id == match spec_uuid_parse(task_execution_id@) {
            Some(id) => id,
            None => 0,
        },
        r.idempotency_key_used == idempotency_key_used,
        r.idempotency_key_new == idempotency_key_new,
{
    let id = match uuid_parse(task_execution_id) {
        Some(id) => id,
        None => 0,
    };
    SubmitTaskResult { task_execution_id: id, idempotency_key_used, idempotency_key_new }
}

/// A polled task from the fields of the reply: an ID that does not parse
/// reads as the nil UUID; an empty or unparsable workflow ID as none; input
/// bytes that hold no JSON value as `null`; the execution count as unsigned.
pub fn task_execution_info(
    task_execution_id: &str,
    workflow_execution_id: &str,
    task_type: String,
    input: &[u8],
    execution_count: i32,
    queue: String,
) -> (r: TaskExecutionInfo)
    ensures
        r.id == match spec_uuid_parse(task_execution_id@) {
            Some(id) => id,
            None => 0,
        },
        r.workflow_execution_id == if workflow_execution_id@.len() == 0 {
            None
        } else {
            spec_uuid_parse(workflow_execution_id@)
        },
        r.task_type@ == task_type@,
        r.input@ == match json_in_bytes(input@) {
            Some(v) => v,
            None => "null"@,
        },
        r.execution_count == execution_count as u32,
        r.queue@ == queue@,
{
    let id = match uuid_parse(task_execution_id) {
        Some(id) => id,
        None => 0,
    };
    let workflow_id = if workflow_execution_id.unicode_len() == 0 {
        None
    } else {
        uuid_parse(workflow_execution_id)
    };
    let input_text = match json_from_bytes(input) {
        Some(v) => v,
        None => String::from_str("null"),
    };
    TaskExecutionInfo {
        id,
        workflow_execution_id: workflow_id,
        task_type,
        input: input_text,
        execution_count: execution_count as u32,
        queue,
    }
}

/// A task state value read back, as mathematical values: `Some(None)` when
/// the key was not found; `null` for an empty value; otherwise the JSON
/// value the bytes hold, or `None` when they hold none.
pub open spec fn state_reading(found: bool, value: Seq<u8>) -> Option<Option<Seq<char>>> {
    if !found {
        Some(None)
    } else if value.len() == 0 {
        Some(Some("null"@))
    } else {
        match json_in_bytes(value) {
            Some(t) => Some(Some(t)),
            None => None,
        }
    }
}

/// A task state value read back (see [`state_reading`]); nothing stands for
/// bytes that hold no JSON value, a serialization error.
pub fn state_value(found: bool, value: &[u8]) -> (r: Option<Option<String>>)
    ensures
        match r {
            Some(v) => state_reading(found, value@) == Some(opt_view(v)),
            None => state_reading(found, value@) is None,
        },
{
    if !found {
        return Some(None);
    }
    if value.len() == 0 {
        return Some(Some(String::from_str("null")));
    }
    match json_from_bytes(value) {
        Some(v) => Some(Some(v)),
        None => None,
    }
}

/// The numbering of the events a task streams: from 0, one more for each
/// event, reset at the start of each task.
pub struct StreamSequence {
    next: u32,
}

impl View for StreamSequence {
    type V = u32;

    closed spec fn view(&self) -> u32 {
        self.next
    }
}

impl StreamSequence {
    /// Numbering from 0.
    pub fn new() -> (r: Self)
        ensures
            r@ == 0,
    {
        StreamSequence { next: 0 }
    }

    /// Start again from 0.
    pub fn reset(&mut self)
        ensures
            final(self)@ == 0,
    {
        self.next = 0;
    }

    /// The number of the next event, as the protocol's signed integer; the
    /// counter moves on (wrapping around).
    pub fn next_sequence(&mut self) -> (r: i32)
        ensures
            r == old(self)@ as i32,
            final(self)@ == old(self)@.wrapping_add(1),
    {
        let n = self.next;
        self.next = n.wrapping_add(1);
        n as i32
    }
}

} // verus!
