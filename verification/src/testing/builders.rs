//! Fluent set-up of test scenarios: a workflow history of replay events with
//! a mock context configured to match it, and mock task contexts.

use crate::common::ids::is_random_uuid;
use crate::common::kv::{KvView, kv_insert};
use crate::common::text::{i64_to_decimal, signed_decimal};
use crate::testing::mock_task_context::{MockTaskContext, MockTaskContextBuilder};
use crate::testing::mock_workflow_context::{DEFAULT_RNG_SEED, MockWorkflowContext};
use crate::workflow::event::{
    EventField,
    EventFieldView,
    EventType,
    ReplayEvent,
    ReplayEventView,
    history_view,
    spec_json_object_fields,
    string_field,
    value_field,
    json_object_fields,
};
use vstd::prelude::*;

verus! {

/// The map that inserting `entries` in order into an empty map gives.
pub open spec fn kv_from_entries(entries: Seq<(Seq<char>, Seq<char>)>) -> KvView
    decreases entries.len(),
{
    if entries.len() == 0 {
        Seq::empty()
    } else {
        kv_insert(kv_from_entries(entries.drop_last()), entries.last().0, entries.last().1)
    }
}

/// The fields of an event whose data is the JSON text `data`: its entries
/// when it is an object, none otherwise.
pub open spec fn data_fields(data: Seq<char>) -> Seq<EventFieldView> {
    match spec_json_object_fields(data) {
        Some(fields) => fields,
        None => Seq::empty(),
    }
}

/// A workflow test builder as mathematical values.
pub struct WorkflowTestBuilderView {
    pub workflow_execution_id: Option<u128>,
    pub tenant_id: Option<u128>,
    pub input: Option<Seq<char>>,
    pub initial_time_millis: Option<i64>,
    pub events: Seq<ReplayEventView>,
    /// The sequence number of the last event added.
    pub sequence: i32,
    /// The task results, in the order the completions were added.
    pub task_results: Seq<(Seq<char>, Seq<char>)>,
    pub promise_results: Seq<(Seq<char>, Seq<char>)>,
    pub child_workflow_results: Seq<(Seq<char>, Seq<char>)>,
}

/// Builder of a workflow test: a history of replay events, numbered from 1
/// in the order they are added, and a mock context that answers the tasks,
/// promises and child workflows that the history completes.
pub struct WorkflowTestBuilder {
    workflow_execution_id: Option<u128>,
    tenant_id: Option<u128>,
    input: Option<String>,
    initial_time_millis: Option<i64>,
    events: Vec<ReplayEvent>,
    sequence: i32,
    task_results: Vec<(String, String)>,
    promise_results: Vec<(String, String)>,
    child_workflow_results: Vec<(String, String)>,
}

pub open spec fn pairs_view(v: Seq<(String, String)>) -> Seq<(Seq<char>, Seq<char>)> {
    v.map_values(|p: (String, String)| (p.0@, p.1@))
}

impl View for WorkflowTestBuilder {
    type V = WorkflowTestBuilderView;

    closed spec fn view(&self) -> WorkflowTestBuilderView {
        WorkflowTestBuilderView {
            workflow_execution_id: self.workflow_execution_id,
            tenant_id: self.tenant_id,
            input: match self.input {
                Some(s) => Some(s@),
                None => None,
            },
            initial_time_millis: self.initial_time_millis,
            events: history_view(self.events@),
            sequence: self.sequence,
            task_results: pairs_view(self.task_results@),
            promise_results: pairs_view(self.promise_results@),
            child_workflow_results: pairs_view(self.child_workflow_results@),
        }
    }
}

/// The builder `b` with the event of `event_type` and `fields` added.
pub open spec fn with_event(
    b: WorkflowTestBuilderView,
    event_type: EventType,
    fields: Seq<EventFieldView>,
) -> WorkflowTestBuilderView {
    WorkflowTestBuilderView {
        events: b.events.push(
            ReplayEventView { sequence_number: b.sequence + 1, event_type, fields },
        ),
        sequence: (b.sequence + 1) as i32,
        ..b
    }
}

impl WorkflowTestBuilder {
    /// A builder with no events and nothing set.
    pub fn new() -> (r: Self)
        ensures
            r@ == (WorkflowTestBuilderView {
                workflow_execution_id: None,
                tenant_id: None,
                input: None,
                initial_time_millis: None,
                events: Seq::empty(),
                sequence: 0,
                task_results: Seq::empty(),
                promise_results: Seq::empty(),
                child_workflow_results: Seq::empty(),
            }),
    {
        let r = WorkflowTestBuilder {
            workflow_execution_id: None,
            tenant_id: None,
            input: None,
            initial_time_millis: None,
            events: Vec::new(),
            sequence: 0,
            task_results: Vec::new(),
            promise_results: Vec::new(),
            child_workflow_results: Vec::new(),
        };
        assert(r@.events =~= Seq::<ReplayEventView>::empty());
        assert(r@.task_results =~= Seq::<(Seq<char>, Seq<char>)>::empty());
        assert(r@.promise_results =~= Seq::<(Seq<char>, Seq<char>)>::empty());
        assert(r@.child_workflow_results =~= Seq::<(Seq<char>, Seq<char>)>::empty());
        r
    }

    /// Set the workflow execution ID.
    pub fn workflow_execution_id(self, id: u128) -> (r: Self)
        ensures
            r@ == (WorkflowTestBuilderView { workflow_execution_id: Some(id), ..self@ }),
    {
        WorkflowTestBuilder { workflow_execution_id: Some(id), ..self }
    }

    /// Set the tenant ID.
    pub fn org_id(self, id: u128) -> (r: Self)
        ensures
            r@ == (WorkflowTestBuilderView { tenant_id: Some(id), ..self@ }),
    {
        WorkflowTestBuilder { tenant_id: Some(id), ..self }
    }

    /// Set the workflow input (JSON text).
    pub fn input(self, input: String) -> (r: Self)
        ensures
            r@ == (WorkflowTestBuilderView { input: Some(input@), ..self@ }),
    {
        WorkflowTestBuilder { input: Some(input), ..self }
    }

    /// Set the initial time.
    pub fn initial_time_millis(self, time: i64) -> (r: Self)
        ensures
            r@ == (WorkflowTestBuilderView { initial_time_millis: Some(time), ..self@ }),
    {
        WorkflowTestBuilder { initial_time_millis: Some(time), ..self }
    }

    fn push_event(self, event_type: EventType, fields: Vec<EventField>) -> (r: Self)
        requires
            self@.sequence < i32::MAX,
        ensures
            r@ == with_event(self@, event_type, fields@.map_values(|f: EventField| f@)),
    {
        let mut b = self;
        let ghost before = b@;
        let sequence = b.sequence + 1;
        b.sequence = sequence;
        b.events.push(ReplayEvent::new(sequence, event_type, fields));
        assert(b@.events =~= before.events.push(
            ReplayEventView {
                sequence_number: before.sequence + 1,
                event_type,
                fields: fields@.map_values(|f: EventField| f@),
            },
        ));
        b
    }

    /// Add a workflow-started event whose data is `input` (JSON text).
    pub fn with_workflow_started(self, input: &str) -> (r: Self)
        requires
            self@.sequence < i32::MAX,
        ensures
            r@ == with_event(self@, EventType::WorkflowStarted, data_fields(input@)),
    {
        let fields = match json_object_fields(input) {
            Some(f) => f,
            None => Vec::new(),
        };
        assert(fields@.map_values(|f: EventField| f@) =~= data_fields(input@));
        self.push_event(EventType::WorkflowStarted, fields)
    }

    /// Add the completion of the operation `name` (a `run`) with `result`.
    pub fn with_operation_completed(self, name: &str, result: String) -> (r: Self)
        requires
            self@.sequence < i32::MAX,
        ensures
            r@ == with_event(
                self@,
                EventType::OperationCompleted,
                seq![string_field("operationName"@, name@), value_field("result"@, result@)],
            ),
    {
        let fields = vec![EventField::string("operationName", name), EventField::value("result", result)];
        assert(fields@.map_values(|f: EventField| f@) =~= seq![
            string_field("operationName"@, name@),
            value_field("result"@, result@),
        ]);
        self.push_event(EventType::OperationCompleted, fields)
    }

    /// Add the scheduling of a task of `task_type` with `input`.
    pub fn with_task_scheduled(self, task_type: &str, input: String) -> (r: Self)
        requires
            self@.sequence < i32::MAX,
        ensures
            r@ == with_event(
                self@,
                EventType::TaskScheduled,
                seq![string_field("kind"@, task_type@), value_field("input"@, input@)],
            ),
    {
        let fields = vec![EventField::string("kind", task_type), EventField::value("input", input)];
        assert(fields@.map_values(|f: EventField| f@) =~= seq![
            string_field("kind"@, task_type@),
            value_field("input"@, input@),
        ]);
        self.push_event(EventType::TaskScheduled, fields)
    }

    /// Add the completion of a task of `task_type` with `result`; the mock
    /// context answers tasks of that type with it.
    pub fn with_task_completed(self, task_type: &str, result: String) -> (r: Self)
        requires
            self@.sequence < i32::MAX,
        ensures
            r@ == (WorkflowTestBuilderView {
                task_results: self@.task_results.push((task_type@, result@)),
                ..with_event(
                    self@,
                    EventType::TaskCompleted,
                    seq![string_field("kind"@, task_type@), value_field("result"@, result@)],
                )
            }),
    {
        let fields = vec![
            EventField::string("kind", task_type),
            EventField::value("result", result.clone()),
        ];
        assert(fields@.map_values(|f: EventField| f@) =~= seq![
            string_field("kind"@, task_type@),
            value_field("result"@, result@),
        ]);
        let mut b = self.push_event(EventType::TaskCompleted, fields);
        let ghost before = b@;
        b.task_results.push((String::from_str(task_type), result));
        assert(b@.task_results =~= before.task_results.push((task_type@, result@)));
        b
    }

    /// Add the failure of a task of `task_type` with `error`.
    pub fn with_task_failed(self, task_type: &str, error: &str) -> (r: Self)
        requires
            self@.sequence < i32::MAX,
        ensures
            r@ == with_event(
                self@,
                EventType::TaskFailed,
                seq![string_field("kind"@, task_type@), string_field("error"@, error@)],
            ),
    {
        let fields = vec![EventField::string("kind", task_type), EventField::string("error", error)];
        assert(fields@.map_values(|f: EventField| f@) =~= seq![
            string_field("kind"@, task_type@),
            string_field("error"@, error@),
        ]);
        self.push_event(EventType::TaskFailed, fields)
    }

    /// Add the setting of state key `key` to `value`.
    pub fn with_state_set(self, key: &str, value: String) -> (r: Self)
        requires
            self@.sequence < i32::MAX,
        ensures
            r@ == with_event(
                self@,
                EventType::StateSet,
                seq![string_field("key"@, key@), value_field("value"@, value@)],
            ),
    {
        let fields = vec![EventField::string("key", key), EventField::value("value", value)];
        assert(fields@.map_values(|f: EventField| f@) =~= seq![
            string_field("key"@, key@),
            value_field("value"@, value@),
        ]);
        self.push_event(EventType::StateSet, fields)
    }

    /// Add the clearing of state key `key`.
    pub fn with_state_cleared(self, key: &str) -> (r: Self)
        requires
            self@.sequence < i32::MAX,
        ensures
            r@ == with_event(self@, EventType::StateCleared, seq![string_field("key"@, key@)]),
    {
        let fields = vec![EventField::string("key", key)];
        assert(fields@.map_values(|f: EventField| f@) =~= seq![string_field("key"@, key@)]);
        self.push_event(EventType::StateCleared, fields)
    }

    /// Add the start of the timer `timer_id`, of `duration_ms` milliseconds.
    pub fn with_timer_started(self, timer_id: &str, duration_ms: i64) -> (r: Self)
        requires
            self@.sequence < i32::MAX,
        ensures
            r@ == with_event(
                self@,
                EventType::TimerStarted,
                seq![
                    string_field("timerId"@, timer_id@),
                    value_field("durationMs"@, signed_decimal(duration_ms as int)),
                ],
            ),
    {
        let fields = vec![
            EventField::string("timerId", timer_id),
            EventField::value("durationMs", i64_to_decimal(duration_ms)),
        ];
        assert(fields@.map_values(|f: EventField| f@) =~= seq![
            string_field("timerId"@, timer_id@),
            value_field("durationMs"@, signed_decimal(duration_ms as int)),
        ]);
        self.push_event(EventType::TimerStarted, fields)
    }

    /// Add the firing of the timer `timer_id`.
    pub fn with_timer_fired(self, timer_id: &str) -> (r: Self)
        requires
            self@.sequence < i32::MAX,
        ensures
            r@ == with_event(self@, EventType::TimerFired, seq![string_field("timerId"@, timer_id@)]),
    {
        let fields = vec![EventField::string("timerId", timer_id)];
        assert(fields@.map_values(|f: EventField| f@) =~= seq![string_field("timerId"@, timer_id@)]);
        self.push_event(EventType::TimerFired, fields)
    }

    /// Add the creation of the promise `promise_id`.
    pub fn with_promise_created(self, promise_id: &str) -> (r: Self)
        requires
            self@.sequence < i32::MAX,
        ensures
            r@ == with_event(
                self@,
                EventType::PromiseCreated,
                seq![string_field("promiseId"@, promise_id@)],
            ),
    {
        let fields = vec![EventField::string("promiseId", promise_id)];
        assert(fields@.map_values(|f: EventField| f@) =~= seq![
            string_field("promiseId"@, promise_id@),
        ]);
        self.push_event(EventType::PromiseCreated, fields)
    }

    /// Add the resolution of the promise `promise_id` with `value`; the mock
    /// context answers the promise with it.
    pub fn with_promise_resolved(self, promise_id: &str, value: String) -> (r: Self)
        requires
            self@.sequence < i32::MAX,
        ensures
            r@ == (WorkflowTestBuilderView {
                promise_results: self@.promise_results.push((promise_id@, value@)),
                ..with_event(
                    self@,
                    EventType::PromiseResolved,
                    seq![string_field("promiseId"@, promise_id@), value_field("value"@, value@)],
                )
            }),
    {
        let fields = vec![
            EventField::string("promiseId", promise_id),
            EventField::value("value", value.clone()),
        ];
        assert(fields@.map_values(|f: EventField| f@) =~= seq![
            string_field("promiseId"@, promise_id@),
            value_field("value"@, value@),
        ]);
        let mut b = self.push_event(EventType::PromiseResolved, fields);
        let ghost before = b@;
        b.promise_results.push((String::from_str(promise_id), value));
        assert(b@.promise_results =~= before.promise_results.push((promise_id@, value@)));
        b
    }

    /// Add the start of the child workflow `name` of `kind` with `input`.
    pub fn with_child_workflow_initiated(self, name: &str, kind: &str, input: String) -> (r: Self)
        requires
            self@.sequence < i32::MAX,
        ensures
            r@ == with_event(
                self@,
                EventType::ChildWorkflowInitiated,
                seq![
                    string_field("childName"@, name@),
                    string_field("childKind"@, kind@),
                    value_field("input"@, input@),
                ],
            ),
    {
        let fields = vec![
            EventField::string("childName", name),
            EventField::string("childKind", kind),
            EventField::value("input", input),
        ];
        assert(fields@.map_values(|f: EventField| f@) =~= seq![
            string_field("childName"@, name@),
            string_field("childKind"@, kind@),
            value_field("input"@, input@),
        ]);
        self.push_event(EventType::ChildWorkflowInitiated, fields)
    }

    /// Add the completion of a child workflow of `kind` with `result`; the
    /// mock context answers child workflows of that kind with it.
    pub fn with_child_workflow_completed(self, kind: &str, result: String) -> (r: Self)
        requires
            self@.sequence < i32::MAX,
        ensures
            r@ == (WorkflowTestBuilderView {
                child_workflow_results: self@.child_workflow_results.push((kind@, result@)),
                ..with_event(
                    self@,
                    EventType::ChildWorkflowCompleted,
                    seq![string_field("childKind"@, kind@), value_field("result"@, result@)],
                )
            }),
    {
        let fields = vec![
            EventField::string("childKind", kind),
            EventField::value("result", result.clone()),
        ];
        assert(fields@.map_values(|f: EventField| f@) =~= seq![
            string_field("childKind"@, kind@),
            value_field("result"@, result@),
        ]);
        let mut b = self.push_event(EventType::ChildWorkflowCompleted, fields);
        let ghost before = b@;
        b.child_workflow_results.push((String::from_str(kind), result));
        assert(b@.child_workflow_results =~= before.child_workflow_results.push((kind@, result@)));
        b
    }

    /// Add a cancellation request.
    pub fn with_cancellation_requested(self) -> (r: Self)
        requires
            self@.sequence < i32::MAX,
        ensures
            r@ == with_event(self@, EventType::CancellationRequested, Seq::empty()),
    {
        let fields: Vec<EventField> = Vec::new();
        assert(fields@.map_values(|f: EventField| f@) =~= Seq::<EventFieldView>::empty());
        self.push_event(EventType::CancellationRequested, fields)
    }

    /// The mock context and the history. The context has the IDs, input and
    /// time that were set (as its builder fills in those that were not),
    /// and answers the tasks, promises and child workflows completed in the
    /// history, the last completion of a key winning.
    pub fn build(self) -> (r: (MockWorkflowContext, Vec<ReplayEvent>))
        ensures
            history_view(r.1@) == self@.events,
            r.0.wf(),
            self@.workflow_execution_id matches Some(id) ==> r.0@.workflow_execution_id == id,
            self@.workflow_execution_id is None ==> is_random_uuid(r.0@.workflow_execution_id),
            self@.tenant_id matches Some(id) ==> r.0@.tenant_id == id,
            self@.tenant_id is None ==> is_random_uuid(r.0@.tenant_id),
            r.0@.input == match self@.input {
                Some(s) => s,
                None => "null"@,
            },
            self@.initial_time_millis matches Some(t) ==> r.0@.time.current_time_millis == t,
            r.0@.time.timers.len() == 0,
            r.0@.state.len() == 0,
            r.0@.task_results == kv_from_entries(self@.task_results),
            r.0@.promise_results == kv_from_entries(self@.promise_results),
            r.0@.child_workflow_results == kv_from_entries(self@.child_workflow_results),
            r.0@.operations.len() == 0 && r.0@.tasks.len() == 0 && r.0@.workflows.len() == 0
                && r.0@.promises.len() == 0,
            !r.0@.cancellation_requested,
            r.0@.uuid_counter == 0,
            r.0@.rng_seed == DEFAULT_RNG_SEED,
    {
        let ghost start = self@;
        let mut builder = MockWorkflowContext::builder();
        match self.workflow_execution_id {
            Some(id) => {
                builder = builder.workflow_execution_id(id);
            },
            None => {},
        }
        match self.tenant_id {
            Some(id) => {
                builder = builder.tenant_id(id);
            },
            None => {},
        }
        match self.input {
            Some(input) => {
                builder = builder.input(input);
            },
            None => {},
        }
        match self.initial_time_millis {
            Some(time) => {
                builder = builder.initial_time_millis(time);
            },
            None => {},
        }
        proof {
            assert(pairs_view(self.task_results@).take(0) =~= Seq::<(Seq<char>, Seq<char>)>::empty());
            assert(pairs_view(self.promise_results@).take(0) =~= Seq::<(Seq<char>, Seq<char>)>::empty());
            assert(pairs_view(self.child_workflow_results@).take(0)
                =~= Seq::<(Seq<char>, Seq<char>)>::empty());
        }
        let mut i: usize = 0;
        while i < self.task_results.len()
            invariant
                builder.wf(),
                i <= self.task_results@.len(),
                builder.tasks() == kv_from_entries(pairs_view(self.task_results@).take(i as int)),
                builder.promises().len() == 0,
                builder.workflows().len() == 0,
                builder.state_view().len() == 0,
                builder.seed() is None,
                builder.execution_id() == start.workflow_execution_id,
                builder.tenant() == start.tenant_id,
                builder.input_text() == start.input,
                builder.time() == start.initial_time_millis,
            decreases self.task_results@.len() - i,
        {
            let ghost entries = pairs_view(self.task_results@);
            proof {
                assert(entries.take(i + 1).drop_last() =~= entries.take(i as int));
            }
            builder = builder.task_result(self.task_results[i].0.as_str(), self.task_results[i].1.clone());
            i = i + 1;
        }
        assert(pairs_view(self.task_results@).take(self.task_results@.len() as int)
            =~= pairs_view(self.task_results@));
        let mut i: usize = 0;
        while i < self.promise_results.len()
            invariant
                builder.wf(),
                i <= self.promise_results@.len(),
                builder.tasks() == kv_from_entries(pairs_view(self.task_results@)),
                builder.promises() == kv_from_entries(
                    pairs_view(self.promise_results@).take(i as int),
                ),
                builder.workflows().len() == 0,
                builder.state_view().len() == 0,
                builder.seed() is None,
                builder.execution_id() == start.workflow_execution_id,
                builder.tenant() == start.tenant_id,
                builder.input_text() == start.input,
                builder.time() == start.initial_time_millis,
            decreases self.promise_results@.len() - i,
        {
            let ghost entries = pairs_view(self.promise_results@);
            proof {
                assert(entries.take(i + 1).drop_last() =~= entries.take(i as int));
            }
            builder = builder.promise_result(
                self.promise_results[i].0.as_str(),
                self.promise_results[i].1.clone(),
            );
            i = i + 1;
        }
        assert(pairs_view(self.promise_results@).take(self.promise_results@.len() as int)
            =~= pairs_view(self.promise_results@));
        let mut i: usize = 0;
        while i < self.child_workflow_results.len()
            invariant
                builder.wf(),
                i <= self.child_workflow_results@.len(),
                builder.tasks() == kv_from_entries(pairs_view(self.task_results@)),
                builder.promises() == kv_from_entries(pairs_view(self.promise_results@)),
                builder.workflows() == kv_from_entries(
                    pairs_view(self.child_workflow_results@).take(i as int),
                ),
                builder.state_view().len() == 0,
                builder.seed() is None,
                builder.execution_id() == start.workflow_execution_id,
                builder.tenant() == start.tenant_id,
                builder.input_text() == start.input,
                builder.time() == start.initial_time_millis,
            decreases self.child_workflow_results@.len() - i,
        {
            let ghost entries = pairs_view(self.child_workflow_results@);
            proof {
                assert(entries.take(i + 1).drop_last() =~= entries.take(i as int));
            }
            builder = builder.child_workflow_result(
                self.child_workflow_results[i].0.as_str(),
                self.child_workflow_results[i].1.clone(),
            );
            i = i + 1;
        }
        assert(pairs_view(self.child_workflow_results@).take(
            self.child_workflow_results@.len() as int,
        ) =~= pairs_view(self.child_workflow_results@));
        (builder.build(), self.events)
    }
}

impl Default for WorkflowTestBuilder {
    fn default() -> (r: Self)
        ensures
            r@ == (WorkflowTestBuilderView {
                workflow_execution_id: None,
                tenant_id: None,
                input: None,
                initial_time_millis: None,
                events: Seq::empty(),
                sequence: 0,
                task_results: Seq::empty(),
                promise_results: Seq::empty(),
                child_workflow_results: Seq::empty(),
            }),
    {
        Self::new()
    }
}

/// A task test builder as mathematical values.
pub struct TaskTestBuilderView {
    pub task_execution_id: Option<u128>,
    pub attempt: Option<u32>,
    pub cancelled: bool,
}

/// Builder of a mock task context for a task test.
pub struct TaskTestBuilder {
    task_execution_id: Option<u128>,
    attempt: Option<u32>,
    cancelled: bool,
}

impl View for TaskTestBuilder {
    type V = TaskTestBuilderView;

    closed spec fn view(&self) -> TaskTestBuilderView {
        TaskTestBuilderView {
            task_execution_id: self.task_execution_id,
            attempt: self.attempt,
            cancelled: self.cancelled,
        }
    }
}

impl TaskTestBuilder {
    /// A builder with nothing set.
    pub fn new() -> (r: Self)
        ensures
            r@ == (TaskTestBuilderView { task_execution_id: None, attempt: None, cancelled: false }),
    {
        TaskTestBuilder { task_execution_id: None, attempt: None, cancelled: false }
    }

    /// Set the task execution ID.
    pub fn task_execution_id(self, id: u128) -> (r: Self)
        ensures
            r@ == (TaskTestBuilderView { task_execution_id: Some(id), ..self@ }),
    {
        TaskTestBuilder { task_execution_id: Some(id), ..self }
    }

    /// Set the attempt number.
    pub fn attempt(self, attempt: u32) -> (r: Self)
        ensures
            r@ == (TaskTestBuilderView { attempt: Some(attempt), ..self@ }),
    {
        TaskTestBuilder { attempt: Some(attempt), ..self }
    }

    /// Mark the task as cancelled.
    pub fn cancelled(self) -> (r: Self)
        ensures
            r@ == (TaskTestBuilderView { cancelled: true, ..self@ }),
    {
        TaskTestBuilder { cancelled: true, ..self }
    }

    /// The mock task context: the ID set, else a fresh random one; the
    /// attempt set, else 1; cancelled if so marked; no log messages.
    pub fn build(self) -> (r: MockTaskContext)
        ensures
            self@.task_execution_id matches Some(id) ==> r@.task_execution_id == id,
            self@.task_execution_id is None ==> is_random_uuid(r@.task_execution_id),
            r@.attempt == match self@.attempt {
                Some(a) => a,
                None => 1,
            },
            r@.cancelled == self@.cancelled,
            r@.logs.len() == 0,
    {
        let mut builder = MockTaskContextBuilder::new();
        match self.task_execution_id {
            Some(id) => {
                builder = builder.task_execution_id(id);
            },
            None => {},
        }
        match self.attempt {
            Some(attempt) => {
                builder = builder.attempt(attempt);
            },
            None => {},
        }
        if self.cancelled {
            builder = builder.cancelled();
        }
        builder.build()
    }
}

impl Default for TaskTestBuilder {
    fn default() -> (r: Self)
        ensures
            r@ == (TaskTestBuilderView { task_execution_id: None, attempt: None, cancelled: false }),
    {
        Self::new()
    }
}

} // verus!
