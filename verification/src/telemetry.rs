//! Execution spans that the SDK records while workflows and tasks run, and
//! the collector that batches them for reporting.

use vstd::prelude::*;
use crate::common::time::{clock_reading_nanos, unix_ns_from_reading};
use crate::common::ids::{is_random_uuid, uuid_text, uuid_to_text, uuid_v4};
use crate::common::kv::{KeyValues, KvView, kv_index, kv_insert};
use crate::common::text::{decimal, i64_to_decimal, opt_view, signed_decimal, u64_to_decimal};

verus! {

/// The number of pending spans at which a collector asks to be flushed.
pub const MAX_BATCH_SIZE: usize = 50;

/// The current time in nanoseconds since the Unix epoch; zero when the
/// clock reads earlier than the epoch. The reading depends on when it is
/// taken, so the contract is that of `unix_ns_from_reading` on it.
pub fn now_unix_ns() -> (r: i64) {
    unix_ns_from_reading(clock_reading_nanos())
}

/// The SDK and environment that report spans.
#[derive(Debug, Clone)]
pub struct SdkInfo {
    pub language: String,
    pub sdk_version: String,
    pub runtime_version: Option<String>,
    pub os: Option<String>,
    pub arch: Option<String>,
    pub hostname: Option<String>,
}

/// A finished execution span.
pub struct ExecutionSpan {
    pub span_id: String,
    pub parent_span_id: Option<String>,
    pub span_type: String,
    pub workflow_id: String,
    pub task_id: Option<String>,
    pub start_time_unix_ns: i64,
    pub end_time_unix_ns: i64,
    pub is_error: bool,
    pub error_type: Option<String>,
    pub error_message: Option<String>,
    pub attributes: KeyValues,
}

/// A span being recorded.
pub struct RecordingSpan {
    span_id: String,
    parent_span_id: Option<String>,
    span_type: String,
    workflow_id: String,
    task_id: Option<String>,
    start_time_unix_ns: i64,
    attributes: KeyValues,
}

/// A recording span as mathematical values.
pub struct SpanView {
    pub span_id: Seq<char>,
    pub parent_span_id: Option<Seq<char>>,
    pub span_type: Seq<char>,
    pub workflow_id: Seq<char>,
    pub task_id: Option<Seq<char>>,
    pub start_time_unix_ns: i64,
    pub attributes: KvView,
}

impl View for RecordingSpan {
    type V = SpanView;

    closed spec fn view(&self) -> SpanView {
        SpanView {
            span_id: self.span_id@,
            parent_span_id: opt_view(self.parent_span_id),
            span_type: self.span_type@,
            workflow_id: self.workflow_id@,
            task_id: opt_view(self.task_id),
            start_time_unix_ns: self.start_time_unix_ns,
            attributes: self.attributes@,
        }
    }
}

impl RecordingSpan {
    /// The span's invariant: its attribute keys are unique.
    pub closed spec fn wf(&self) -> bool {
        self.attributes.wf()
    }

    /// Start recording a span of `span_type` for the workflow
    /// `workflow_id`, under a fresh random ID, starting now.
    pub fn new(span_type: &str, workflow_id: &str) -> (r: Self)
        ensures
            r.wf(),
            r@.span_type == span_type@,
            r@.workflow_id == workflow_id@,
            r@.parent_span_id is None,
            r@.task_id is None,
            r@.attributes == Seq::<(Seq<char>, Seq<char>)>::empty(),
            exists|id: u128| is_random_uuid(id) && r@.span_id == uuid_text(id),
            r@.span_id.len() == 36,
    {
        let id = uuid_v4();
        RecordingSpan {
            span_id: uuid_to_text(id),
            parent_span_id: None,
            span_type: String::from_str(span_type),
            workflow_id: String::from_str(workflow_id),
            task_id: None,
            start_time_unix_ns: now_unix_ns(),
            attributes: KeyValues::new(),
        }
    }

    /// The span with parent `parent_span_id`.
    pub fn with_parent(self, parent_span_id: &str) -> (r: Self)
        requires
            self.wf(),
        ensures
            r.wf(),
            r@ == (SpanView { parent_span_id: Some(parent_span_id@), ..self@ }),
    {
        RecordingSpan { parent_span_id: Some(String::from_str(parent_span_id)), ..self }
    }

    /// The span with task `task_id`.
    pub fn with_task_id(self, task_id: &str) -> (r: Self)
        requires
            self.wf(),
        ensures
            r.wf(),
            r@ == (SpanView { task_id: Some(task_id@), ..self@ }),
    {
        RecordingSpan { task_id: Some(String::from_str(task_id)), ..self }
    }

    /// The span with attribute `key` set to `value`.
    pub fn with_attribute(self, key: &str, value: &str) -> (r: Self)
        requires
            self.wf(),
        ensures
            r.wf(),
            r@ == (SpanView { attributes: kv_insert(self@.attributes, key@, value@), ..self@ }),
    {
        let mut s = self;
        s.attributes.insert(key, String::from_str(value));
        s
    }

    /// The span's ID.
    pub fn span_id(&self) -> (r: &str)
        ensures
            r@ == self@.span_id,
    {
        self.span_id.as_str()
    }

    /// Finish the span now, without an error.
    pub fn finish(self) -> (r: ExecutionSpan)
        requires
            self.wf(),
        ensures
            finished_from(r, self@),
            !r.is_error,
            r.error_type is None,
            r.error_message is None,
    {
        ExecutionSpan {
            span_id: self.span_id,
            parent_span_id: self.parent_span_id,
            span_type: self.span_type,
            workflow_id: self.workflow_id,
            task_id: self.task_id,
            start_time_unix_ns: self.start_time_unix_ns,
            end_time_unix_ns: now_unix_ns(),
            is_error: false,
            error_type: None,
            error_message: None,
            attributes: self.attributes,
        }
    }

    /// Finish the span now, with an error of `error_type` and
    /// `error_message`.
    pub fn finish_with_error(self, error_type: &str, error_message: &str) -> (r: ExecutionSpan)
        requires
            self.wf(),
        ensures
            finished_from(r, self@),
            r.is_error,
            opt_view(r.error_type) == Some(error_type@),
            opt_view(r.error_message) == Some(error_message@),
    {
        ExecutionSpan {
            span_id: self.span_id,
            parent_span_id: self.parent_span_id,
            span_type: self.span_type,
            workflow_id: self.workflow_id,
            task_id: self.task_id,
            start_time_unix_ns: self.start_time_unix_ns,
            end_time_unix_ns: now_unix_ns(),
            is_error: true,
            error_type: Some(String::from_str(error_type)),
            error_message: Some(String::from_str(error_message)),
            attributes: self.attributes,
        }
    }
}

/// Whether `e` carries what the recording span `s` recorded.
pub open spec fn finished_from(e: ExecutionSpan, s: SpanView) -> bool {
    &&& e.span_id@ == s.span_id
    &&& opt_view(e.parent_span_id) == s.parent_span_id
    &&& e.span_type@ == s.span_type
    &&& e.workflow_id@ == s.workflow_id
    &&& opt_view(e.task_id) == s.task_id
    &&& e.start_time_unix_ns == s.start_time_unix_ns
    &&& e.attributes@ == s.attributes
    &&& e.attributes.wf()
}

/// A span keeps its ID while it is recorded: given a parent, a task or an
/// attribute it has the ID it had, and the span it finishes as carries it.
pub proof fn law_span_id_is_kept(
    s: SpanView,
    parent: Seq<char>,
    task: Seq<char>,
    key: Seq<char>,
    value: Seq<char>,
    e: ExecutionSpan,
)
    requires
        finished_from(e, s),
    ensures
        (SpanView { parent_span_id: Some(parent), ..s }).span_id == s.span_id,
        (SpanView { task_id: Some(task), ..s }).span_id == s.span_id,
        (SpanView { attributes: kv_insert(s.attributes, key, value), ..s }).span_id == s.span_id,
        e.span_id@ == s.span_id,
{
}

/// Batches finished spans for reporting.
pub struct SpanCollector {
    spans: Vec<ExecutionSpan>,
    sdk_info: SdkInfo,
    enabled: bool,
}

impl SpanCollector {
    /// The spans waiting to be reported.
    pub closed spec fn pending(&self) -> Seq<ExecutionSpan> {
        self.spans@
    }

    /// Whether spans are collected at all.
    pub closed spec fn enabled(&self) -> bool {
        self.enabled
    }

    /// What the collector reports about the SDK.
    pub closed spec fn info(&self) -> SdkInfo {
        self.sdk_info
    }

    /// A collector, enabled or not, that reports for `sdk_info`.
    pub fn new(enabled: bool, sdk_info: SdkInfo) -> (r: Self)
        ensures
            r.enabled() == enabled,
            r.info() == sdk_info,
            r.pending() == Seq::<ExecutionSpan>::empty(),
    {
        SpanCollector { spans: Vec::new(), sdk_info, enabled }
    }

    /// Whether spans are collected.
    pub fn is_enabled(&self) -> (r: bool)
        ensures
            r == self.enabled(),
    {
        self.enabled
    }

    /// What the collector reports about the SDK.
    pub fn sdk_info(&self) -> (r: &SdkInfo)
        ensures
            *r == self.info(),
    {
        &self.sdk_info
    }

    /// Record a finished span; a disabled collector drops it.
    pub fn record(&mut self, span: ExecutionSpan)
        ensures
            final(self).enabled() == old(self).enabled(),
            final(self).info() == old(self).info(),
            final(self).pending() == if old(self).enabled() {
                old(self).pending().push(span)
            } else {
                old(self).pending()
            },
    {
        if !self.enabled {
            return;
        }
        self.spans.push(span);
    }

    /// The number of spans waiting to be reported.
    pub fn pending_count(&self) -> (r: usize)
        ensures
            r == self.pending().len(),
    {
        self.spans.len()
    }

    /// Whether a full batch is waiting.
    pub fn should_flush(&self) -> (r: bool)
        ensures
            r == (self.pending().len() >= MAX_BATCH_SIZE),
    {
        self.pending_count() >= MAX_BATCH_SIZE
    }

    /// Take every pending span.
    pub fn take_spans(&mut self) -> (r: Vec<ExecutionSpan>)
        ensures
            r@ == old(self).pending(),
            final(self).pending() == Seq::<ExecutionSpan>::empty(),
            final(self).enabled() == old(self).enabled(),
            final(self).info() == old(self).info(),
    {
        let mut out: Vec<ExecutionSpan> = Vec::new();
        core::mem::swap(&mut out, &mut self.spans);
        out
    }

    /// The spans to report on a flush: none when disabled or when nothing is
    /// pending; otherwise every pending span, which the collector gives up.
    pub fn spans_to_flush(&mut self) -> (r: Option<Vec<ExecutionSpan>>)
        ensures
            final(self).enabled() == old(self).enabled(),
            final(self).info() == old(self).info(),
            if !old(self).enabled() || old(self).pending().len() == 0 {
                r is None && final(self).pending() == old(self).pending()
            } else {
                r matches Some(v) && v@ == old(self).pending() && final(self).pending()
                    == Seq::<ExecutionSpan>::empty()
            },
    {
        if !self.enabled || self.spans.len() == 0 {
            return None;
        }
        Some(self.take_spans())
    }
}

/// A `workflow.execute` span for a workflow of `workflow_kind`.
pub fn workflow_execute_span(workflow_id: &str, workflow_kind: &str) -> (r: RecordingSpan)
    ensures
        r.wf(),
        r@.span_type == "workflow.execute"@,
        r@.workflow_id == workflow_id@,
        r@.parent_span_id is None,
        r@.task_id is None,
        r@.attributes == seq![("workflow.kind"@, workflow_kind@)],
{
    let r = RecordingSpan::new("workflow.execute", workflow_id).with_attribute(
        "workflow.kind",
        workflow_kind,
    );
    assert(r@.attributes =~= seq![("workflow.kind"@, workflow_kind@)]);
    r
}

/// A `workflow.replay` span over `event_count` history events.
pub fn workflow_replay_span(workflow_id: &str, event_count: usize) -> (r: RecordingSpan)
    ensures
        r.wf(),
        r@.span_type == "workflow.replay"@,
        r@.workflow_id == workflow_id@,
        r@.parent_span_id is None,
        r@.task_id is None,
        r@.attributes == seq![("replay.event_count"@, decimal(event_count as nat))],
{
    let count = u64_to_decimal(event_count as u64);
    let r = RecordingSpan::new("workflow.replay", workflow_id).with_attribute(
        "replay.event_count",
        count.as_str(),
    );
    assert(r@.attributes =~= seq![("replay.event_count"@, decimal(event_count as nat))]);
    r
}

/// A `task.execute` span for the task `task_id` of `task_type`.
pub fn task_execute_span(workflow_id: &str, task_id: &str, task_type: &str) -> (r: RecordingSpan)
    ensures
        r.wf(),
        r@.span_type == "task.execute"@,
        r@.workflow_id == workflow_id@,
        r@.parent_span_id is None,
        r@.task_id == Some(task_id@),
        r@.attributes == seq![("task.type"@, task_type@)],
{
    let r = RecordingSpan::new("task.execute", workflow_id).with_task_id(task_id).with_attribute(
        "task.type",
        task_type,
    );
    assert(r@.attributes =~= seq![("task.type"@, task_type@)]);
    r
}

/// A `task.retry` span for attempt `attempt` of `max_attempts` of the task
/// `task_id`.
pub fn task_retry_span(
    workflow_id: &str,
    task_id: &str,
    task_type: &str,
    attempt: i32,
    max_attempts: i32,
) -> (r: RecordingSpan)
    ensures
        r.wf(),
        r@.span_type == "task.retry"@,
        r@.workflow_id == workflow_id@,
        r@.parent_span_id is None,
        r@.task_id == Some(task_id@),
        r@.attributes == seq![
            ("task.type"@, task_type@),
            ("attempt"@, signed_decimal(attempt as int)),
            ("max_attempts"@, signed_decimal(max_attempts as int)),
        ],
{
    let a = i64_to_decimal(attempt as i64);
    let m = i64_to_decimal(max_attempts as i64);
    proof {
        reveal_strlit("task.type");
        reveal_strlit("attempt");
        reveal_strlit("max_attempts");
    }
    let r1 = RecordingSpan::new("task.retry", workflow_id).with_task_id(task_id).with_attribute(
        "task.type",
        task_type,
    );
    assert(r1@.attributes =~= seq![("task.type"@, task_type@)]);
    let r2 = r1.with_attribute("attempt", a.as_str());
    assert(kv_index(r1@.attributes, "attempt"@) is None) by {
        reveal_with_fuel(kv_index, 2);
        assert("attempt"@.len() != "task.type"@.len());
    }
    assert(r2@.attributes =~= seq![
        ("task.type"@, task_type@),
        ("attempt"@, signed_decimal(attempt as int)),
    ]);
    let r = r2.with_attribute("max_attempts", m.as_str());
    assert(kv_index(r2@.attributes, "max_attempts"@) is None) by {
        reveal_with_fuel(kv_index, 3);
        assert(r2@.attributes.drop_last() =~= r1@.attributes);
        assert(r1@.attributes.drop_last() =~= Seq::<(Seq<char>, Seq<char>)>::empty());
        assert("max_attempts"@.len() != "task.type"@.len());
        assert("max_attempts"@.len() != "attempt"@.len());
    }
    assert(r@.attributes =~= seq![
        ("task.type"@, task_type@),
        ("attempt"@, signed_decimal(attempt as int)),
        ("max_attempts"@, signed_decimal(max_attempts as int)),
    ]);
    r
}

/// An `activity.execute` span for the activity `activity_name`, under
/// `parent_span_id` when there is one.
pub fn activity_execute_span(
    workflow_id: &str,
    activity_name: &str,
    parent_span_id: Option<&str>,
) -> (r: RecordingSpan)
    ensures
        r.wf(),
        r@.span_type == "activity.execute"@,
        r@.workflow_id == workflow_id@,
        r@.parent_span_id == match parent_span_id {
            Some(p) => Some(p@),
            None => None::<Seq<char>>,
        },
        r@.task_id is None,
        r@.attributes == seq![("activity.name"@, activity_name@)],
{
    let mut span = RecordingSpan::new("activity.execute", workflow_id).with_attribute(
        "activity.name",
        activity_name,
    );
    match parent_span_id {
        Some(parent) => {
            span = span.with_parent(parent);
        },
        None => {},
    }
    assert(span@.attributes =~= seq![("activity.name"@, activity_name@)]);
    span
}

/// A `run.execute` span for the side-effect operation `operation_name`.
pub fn run_execute_span(workflow_id: &str, operation_name: &str) -> (r: RecordingSpan)
    ensures
        r.wf(),
        r@.span_type == "run.execute"@,
        r@.workflow_id == workflow_id@,
        r@.parent_span_id is None,
        r@.task_id is None,
        r@.attributes == seq![("operation.name"@, operation_name@)],
{
    let r = RecordingSpan::new("run.execute", workflow_id).with_attribute(
        "operation.name",
        operation_name,
    );
    assert(r@.attributes =~= seq![("operation.name"@, operation_name@)]);
    r
}

} // verus!
