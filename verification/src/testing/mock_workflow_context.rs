//! A workflow context for unit tests of workflows: results of tasks,
//! promises and child workflows are configured up front, every call is
//! recorded for inspection, and time is a [`TimeController`].

use vstd::prelude::*;
use vstd::arithmetic::power::pow;
use crate::common::ids::{is_random_uuid, spec_uuid_v5, uuid_v4, uuid_v5};
use crate::common::kv::{KeyValues, KvView, kv_get, kv_insert, kv_keys, kv_remove};
use crate::common::text::{opt_view, str_eq};
use crate::error::{FlovynError, FlovynErrorView};
use crate::testing::time_controller::{TimeController, TimeControllerView};
use crate::workflow::context::ScheduleTaskOptions;
use crate::common::text::{decimal, u64_to_decimal};

verus! {

/// The namespace of the mock's UUIDs (the DNS namespace of RFC 4122).
pub const MOCK_UUID_NAMESPACE: u128 = 0x6ba7b8109dad11d180b400c04fd430c8u128;

/// The seed of the mock's random numbers unless one is given.
pub const DEFAULT_RNG_SEED: u64 = 12345;

/// The first draw of `gen_range(min..max)` from a ChaCha8 generator seeded
/// with `seed`.
pub uninterp spec fn spec_chacha_range_i32(seed: u64, min: i32, max: i32) -> i32;

/// The first draw of `gen_range(min..max)` from a ChaCha8 generator seeded
/// with `seed`.
pub uninterp spec fn spec_chacha_range_i64(seed: u64, min: i64, max: i64) -> i64;

/// The first boolean drawn from a ChaCha8 generator seeded with `seed`.
pub uninterp spec fn spec_chacha_bool(seed: u64) -> bool;

/// A number in `[min, max)` drawn from a fresh ChaCha8 generator.
///
/// Trusted: seeds `rand_chacha::ChaCha8Rng` with `seed_from_u64(seed)` and
/// draws once with `rand::Rng::gen_range(min..max)`, which `rand` documents
/// to lie in the range (it panics on an empty range, which `requires`
/// excludes). The draw depends on the seed and the range alone and is
/// named.
#[verifier::external_body]
fn chacha_range_i32(seed: u64, min: i32, max: i32) -> (r: i32)
    requires
        min < max,
    ensures
        r == spec_chacha_range_i32(seed, min, max),
        min <= r < max,
{
    let mut rng = <rand_chacha::ChaCha8Rng as rand::SeedableRng>::seed_from_u64(seed);
    rand::Rng::gen_range(&mut rng, min..max)
}

/// A number in `[min, max)` drawn from a fresh ChaCha8 generator.
///
/// Trusted: as [`chacha_range_i32`], for `i64`.
#[verifier::external_body]
fn chacha_range_i64(seed: u64, min: i64, max: i64) -> (r: i64)
    requires
        min < max,
    ensures
        r == spec_chacha_range_i64(seed, min, max),
        min <= r < max,
{
    let mut rng = <rand_chacha::ChaCha8Rng as rand::SeedableRng>::seed_from_u64(seed);
    rand::Rng::gen_range(&mut rng, min..max)
}

/// A boolean drawn from a fresh ChaCha8 generator.
///
/// Trusted: seeds `rand_chacha::ChaCha8Rng` with `seed_from_u64(seed)` and
/// draws once with `rand::Rng::gen::<bool>()`; named, as it depends on the
/// seed alone.
#[verifier::external_body]
fn chacha_bool(seed: u64) -> (r: bool)
    ensures
        r == spec_chacha_bool(seed),
{
    let mut rng = <rand_chacha::ChaCha8Rng as rand::SeedableRng>::seed_from_u64(seed);
    rand::Rng::gen::<bool>(&mut rng)
}

/// The little-endian bytes of `n`.
pub open spec fn le_bytes(n: u64) -> Seq<u8> {
    Seq::new(8, |i: int| ((n as nat / pow(256, i as nat) as nat) % 256) as u8)
}

/// The UUID a mock context draws when its counter is at `counter`.
pub open spec fn mock_uuid(counter: u64) -> u128 {
    spec_uuid_v5(MOCK_UUID_NAMESPACE, le_bytes(counter))
}

/// A call of a workflow on a mock context, as far as it concerns the UUID
/// counter: drawing a UUID, scheduling a task or a child workflow and
/// sleeping each advance it; every other call leaves it.
pub enum MockCall {
    RandomUuid,
    ScheduleTask,
    ScheduleWorkflow,
    Sleep,
    Other,
}

/// Whether a call advances the UUID counter.
pub open spec fn advances_counter(call: MockCall) -> bool {
    !(call is Other)
}

/// The UUID counter after `calls`, from `counter`.
pub open spec fn counter_after(counter: u64, calls: Seq<MockCall>) -> u64
    decreases calls.len(),
{
    if calls.len() == 0 {
        counter
    } else {
        let before = counter_after(counter, calls.drop_last());
        if advances_counter(calls.last()) {
            before.wrapping_add(1)
        } else {
            before
        }
    }
}

/// Mock UUIDs are deterministic: two contexts whose counters agree (as those
/// of every freshly built context do, whatever their IDs, input, seed or
/// clock) draw the same UUID after the same calls. Each UUID is the
/// version-5 UUID of the counter at the draw.
pub proof fn law_mock_uuids_are_deterministic(a: MockView, b: MockView, calls: Seq<MockCall>)
    requires
        a.uuid_counter == b.uuid_counter,
    ensures
        counter_after(a.uuid_counter, calls) == counter_after(b.uuid_counter, calls),
        mock_uuid(counter_after(a.uuid_counter, calls)) == mock_uuid(
            counter_after(b.uuid_counter, calls),
        ),
{
}

fn to_le_bytes(n: u64) -> (r: Vec<u8>)
    ensures
        r@ == le_bytes(n),
{
    let mut r: Vec<u8> = Vec::new();
    let mut x: u64 = n;
    let mut i: usize = 0;
    proof {
        vstd::arithmetic::power::lemma_pow0(256);
        vstd::arithmetic::div_mod::lemma_div_basics(n as int);
    }
    while i < 8
        invariant
            i <= 8,
            r@.len() == i,
            x as nat == n as nat / pow(256, i as nat) as nat,
            forall|j: int| 0 <= j < i ==> #[trigger] r@[j] == le_bytes(n)[j],
        decreases 8 - i,
    {
        proof {
            vstd::arithmetic::power::lemma_pow_positive(256, i as nat);
            vstd::arithmetic::power::lemma_pow_adds(256, i as nat, 1);
            vstd::arithmetic::power::lemma_pow1(256);
            vstd::arithmetic::div_mod::lemma_div_denominator(
                n as int,
                pow(256, i as nat),
                256,
            );
        }
        r.push((x % 256) as u8);
        x = x / 256;
        i = i + 1;
    }
    assert(r@ =~= le_bytes(n));
    r
}

/// A side-effect operation the workflow ran: its name and result (JSON
/// text).
#[derive(Debug, Clone)]
pub struct RecordedOperation {
    pub name: String,
    pub result: String,
}

/// A task the workflow scheduled.
#[derive(Debug, Clone)]
pub struct ScheduledTask {
    pub task_type: String,
    pub input: String,
    pub options: ScheduleTaskOptions,
}

/// A child workflow the workflow scheduled.
#[derive(Debug, Clone)]
pub struct ScheduledWorkflow {
    pub name: String,
    pub kind: String,
    pub input: String,
}

/// A mock workflow context as mathematical values.
/// Options of a scheduled task: priority in seconds, timeout, queue and
/// maximum retries.
pub type TaskOptionsView = (Option<i32>, Option<core::time::Duration>, Option<Seq<char>>, Option<u32>);

/// The options of a scheduled task, by value.
pub open spec fn task_options_view(o: ScheduleTaskOptions) -> TaskOptionsView {
    (o.priority_seconds, o.timeout, opt_view(o.queue), o.max_retries)
}

/// The options of a task scheduled without any: none is set.
pub open spec fn no_task_options() -> TaskOptionsView {
    (None, None, None, None)
}

pub struct MockView {
    pub workflow_execution_id: u128,
    pub tenant_id: u128,
    pub input: Seq<char>,
    pub time: TimeControllerView,
    pub state: KvView,
    pub task_results: KvView,
    pub promise_results: KvView,
    pub child_workflow_results: KvView,
    /// Each operation run: name and result.
    pub operations: Seq<(Seq<char>, Seq<char>)>,
    /// Each task scheduled: type and input.
    pub tasks: Seq<(Seq<char>, Seq<char>)>,
    /// The options each task was scheduled with, in the same order.
    pub task_options: Seq<TaskOptionsView>,
    /// Each child workflow scheduled: name, kind and input.
    pub workflows: Seq<(Seq<char>, Seq<char>, Seq<char>)>,
    /// Each promise awaited, by name.
    pub promises: Seq<Seq<char>>,
    pub cancellation_requested: bool,
    pub uuid_counter: u64,
    pub rng_seed: u64,
    pub next_task_seq: u32,
    pub next_timer_seq: u32,
    pub next_child_workflow_seq: u32,
    pub next_promise_seq: u32,
    pub next_operation_seq: u32,
}

/// A workflow context for tests.
pub struct MockWorkflowContext {
    workflow_execution_id: u128,
    tenant_id: u128,
    input: String,
    time_controller: TimeController,
    state: KeyValues,
    task_results: KeyValues,
    promise_results: KeyValues,
    child_workflow_results: KeyValues,
    recorded_operations: Vec<RecordedOperation>,
    scheduled_tasks: Vec<ScheduledTask>,
    scheduled_workflows: Vec<ScheduledWorkflow>,
    created_promises: Vec<String>,
    cancellation_requested: bool,
    uuid_counter: u64,
    rng_seed: u64,
    next_task_seq: u32,
    next_timer_seq: u32,
    next_child_workflow_seq: u32,
    next_promise_seq: u32,
    next_operation_seq: u32,
}

impl View for MockWorkflowContext {
    type V = MockView;

    closed spec fn view(&self) -> MockView {
        MockView {
            workflow_execution_id: self.workflow_execution_id,
            tenant_id: self.tenant_id,
            input: self.input@,
            time: self.time_controller@,
            state: self.state@,
            task_results: self.task_results@,
            promise_results: self.promise_results@,
            child_workflow_results: self.child_workflow_results@,
            operations: self.recorded_operations@.map_values(
                |o: RecordedOperation| (o.name@, o.result@),
            ),
            tasks: self.scheduled_tasks@.map_values(|t: ScheduledTask| (t.task_type@, t.input@)),
            task_options: self.scheduled_tasks@.map_values(
                |t: ScheduledTask| task_options_view(t.options),
            ),
            workflows: self.scheduled_workflows@.map_values(
                |w: ScheduledWorkflow| (w.name@, w.kind@, w.input@),
            ),
            promises: self.created_promises@.map_values(|p: String| p@),
            cancellation_requested: self.cancellation_requested,
            uuid_counter: self.uuid_counter,
            rng_seed: self.rng_seed,
            next_task_seq: self.next_task_seq,
            next_timer_seq: self.next_timer_seq,
            next_child_workflow_seq: self.next_child_workflow_seq,
            next_promise_seq: self.next_promise_seq,
            next_operation_seq: self.next_operation_seq,
        }
    }
}

/// The error of a call whose result was not configured: `prefix` (which
/// names the kind of call) followed by the key.
pub open spec fn not_configured_message(prefix: Seq<char>, key: Seq<char>) -> FlovynErrorView {
    FlovynErrorView::Other(prefix + key)
}

/// The answer configured in `results` under `key`, or the error that says
/// it is missing.
pub open spec fn configured(results: KvView, prefix: Seq<char>, key: Seq<char>) -> Result<
    Seq<char>,
    FlovynErrorView,
> {
    match kv_get(results, key) {
        Some(v) => Ok(v),
        None => Err(not_configured_message(prefix, key)),
    }
}

/// A value result as mathematical values.
pub open spec fn mock_result(r: Result<String, FlovynError>) -> Result<Seq<char>, FlovynErrorView> {
    match r {
        Ok(s) => Ok(s@),
        Err(e) => Err(e@),
    }
}

impl MockWorkflowContext {
    /// The context's invariant: its maps have unique keys.
    pub closed spec fn wf(&self) -> bool {
        &&& self.state.wf()
        &&& self.task_results.wf()
        &&& self.promise_results.wf()
        &&& self.child_workflow_results.wf()
    }

    /// A builder of mock contexts.
    pub fn builder() -> (r: MockWorkflowContextBuilder)
        ensures
            r.wf(),
            r.is_empty(),
    {
        MockWorkflowContextBuilder::new()
    }

    /// A mock context with fresh random IDs, the current time, input `null`,
    /// and nothing configured.
    pub fn new() -> (r: Self)
        ensures
            r.wf(),
            is_random_uuid(r@.workflow_execution_id),
            is_random_uuid(r@.tenant_id),
            r@.input == "null"@,
            r@.state.len() == 0,
            r@.task_results.len() == 0,
            r@.promise_results.len() == 0,
            r@.child_workflow_results.len() == 0,
            r@.rng_seed == DEFAULT_RNG_SEED,
    {
        Self::builder().build()
    }

    /// The context's clock.
    pub fn time_controller(&self) -> (r: &TimeController)
        ensures
            r@ == self@.time,
    {
        &self.time_controller
    }

    /// The context's clock, to set or advance it.
    pub fn time_controller_mut(&mut self) -> (r: &mut TimeController)
        ensures
            r@ == old(self)@.time,
            final(self)@ == (MockView { time: final(r)@, ..old(self)@ }),
            final(self).wf() == old(self).wf(),
    {
        &mut self.time_controller
    }

    /// The operations the workflow ran, in order.
    pub fn recorded_operations(&self) -> (r: Vec<RecordedOperation>)
        ensures
            r@.map_values(|o: RecordedOperation| (o.name@, o.result@)) == self@.operations,
    {
        let mut r: Vec<RecordedOperation> = Vec::new();
        let mut i: usize = 0;
        while i < self.recorded_operations.len()
            invariant
                i <= self.recorded_operations@.len(),
                r@.len() == i,
                forall|j: int|
                    0 <= j < i ==> (#[trigger] r@[j]).name@ == self.recorded_operations@[j].name@
                        && r@[j].result@ == self.recorded_operations@[j].result@,
            decreases self.recorded_operations@.len() - i,
        {
            let o = &self.recorded_operations[i];
            r.push(RecordedOperation { name: o.name.clone(), result: o.result.clone() });
            i = i + 1;
        }
        assert(r@.map_values(|o: RecordedOperation| (o.name@, o.result@)) =~= self@.operations);
        r
    }

    /// Whether an operation named `name` ran.
    pub fn was_operation_recorded(&self, name: &str) -> (r: bool)
        ensures
            r == exists|i: int| 0 <= i < self@.operations.len() && #[trigger] self@.operations[i].0 == name@,
    {
        let mut i: usize = 0;
        while i < self.recorded_operations.len()
            invariant
                i <= self.recorded_operations@.len(),
                forall|j: int| 0 <= j < i ==> (#[trigger] self@.operations[j]).0 != name@,
            decreases self.recorded_operations@.len() - i,
        {
            if str_eq(self.recorded_operations[i].name.as_str(), name) {
                assert(self@.operations[i as int].0 == name@);
                return true;
            }
            i = i + 1;
        }
        false
    }

    /// The tasks the workflow scheduled, in order, with their options.
    pub fn scheduled_tasks(&self) -> (r: Vec<ScheduledTask>)
        ensures
            r@.map_values(|t: ScheduledTask| (t.task_type@, t.input@)) == self@.tasks,
            r@.map_values(|t: ScheduledTask| task_options_view(t.options)) == self@.task_options,
    {
        let mut r: Vec<ScheduledTask> = Vec::new();
        let mut i: usize = 0;
        while i < self.scheduled_tasks.len()
            invariant
                i <= self.scheduled_tasks@.len(),
                r@.len() == i,
                forall|j: int|
                    0 <= j < i ==> (#[trigger] r@[j]).task_type@ == self.scheduled_tasks@[j].task_type@
                        && r@[j].input@ == self.scheduled_tasks@[j].input@
                        && task_options_view(r@[j].options) == task_options_view(
                        self.scheduled_tasks@[j].options,
                    ),
            decreases self.scheduled_tasks@.len() - i,
        {
            let t = &self.scheduled_tasks[i];
            r.push(
                ScheduledTask {
                    task_type: t.task_type.clone(),
                    input: t.input.clone(),
                    options: t.options.copy(),
                },
            );
            i = i + 1;
        }
        assert(r@.map_values(|t: ScheduledTask| (t.task_type@, t.input@)) =~= self@.tasks);
        assert(r@.map_values(|t: ScheduledTask| task_options_view(t.options))
            =~= self@.task_options);
        r
    }

    /// Whether a task of `task_type` was scheduled.
    pub fn was_task_scheduled(&self, task_type: &str) -> (r: bool)
        ensures
            r == exists|i: int| 0 <= i < self@.tasks.len() && #[trigger] self@.tasks[i].0 == task_type@,
    {
        let mut i: usize = 0;
        while i < self.scheduled_tasks.len()
            invariant
                i <= self.scheduled_tasks@.len(),
                forall|j: int| 0 <= j < i ==> (#[trigger] self@.tasks[j]).0 != task_type@,
            decreases self.scheduled_tasks@.len() - i,
        {
            if str_eq(self.scheduled_tasks[i].task_type.as_str(), task_type) {
                assert(self@.tasks[i as int].0 == task_type@);
                return true;
            }
            i = i + 1;
        }
        false
    }

    /// The child workflows the workflow scheduled, in order.
    pub fn scheduled_workflows(&self) -> (r: Vec<ScheduledWorkflow>)
        ensures
            r@.map_values(|w: ScheduledWorkflow| (w.name@, w.kind@, w.input@)) == self@.workflows,
    {
        let mut r: Vec<ScheduledWorkflow> = Vec::new();
        let mut i: usize = 0;
        while i < self.scheduled_workflows.len()
            invariant
                i <= self.scheduled_workflows@.len(),
                r@.len() == i,
                forall|j: int|
                    0 <= j < i ==> (#[trigger] r@[j]).name@ == self.scheduled_workflows@[j].name@
                        && r@[j].kind@ == self.scheduled_workflows@[j].kind@
                        && r@[j].input@ == self.scheduled_workflows@[j].input@,
            decreases self.scheduled_workflows@.len() - i,
        {
            let w = &self.scheduled_workflows[i];
            r.push(
                ScheduledWorkflow {
                    name: w.name.clone(),
                    kind: w.kind.clone(),
                    input: w.input.clone(),
                },
            );
            i = i + 1;
        }
        assert(r@.map_values(|w: ScheduledWorkflow| (w.name@, w.kind@, w.input@))
            =~= self@.workflows);
        r
    }

    /// Whether a child workflow of `kind` was scheduled.
    pub fn was_workflow_scheduled(&self, kind: &str) -> (r: bool)
        ensures
            r == exists|i: int| 0 <= i < self@.workflows.len() && #[trigger] self@.workflows[i].1 == kind@,
    {
        let mut i: usize = 0;
        while i < self.scheduled_workflows.len()
            invariant
                i <= self.scheduled_workflows@.len(),
                forall|j: int| 0 <= j < i ==> (#[trigger] self@.workflows[j]).1 != kind@,
            decreases self.scheduled_workflows@.len() - i,
        {
            if str_eq(self.scheduled_workflows[i].kind.as_str(), kind) {
                assert(self@.workflows[i as int].1 == kind@);
                return true;
            }
            i = i + 1;
        }
        false
    }

    /// The promises the workflow awaited, in order.
    pub fn created_promises(&self) -> (r: Vec<String>)
        ensures
            r@.map_values(|p: String| p@) == self@.promises,
    {
        let mut r: Vec<String> = Vec::new();
        let mut i: usize = 0;
        while i < self.created_promises.len()
            invariant
                i <= self.created_promises@.len(),
                r@.len() == i,
                forall|j: int| 0 <= j < i ==> (#[trigger] r@[j])@ == self.created_promises@[j]@,
            decreases self.created_promises@.len() - i,
        {
            r.push(self.created_promises[i].clone());
            i = i + 1;
        }
        assert(r@.map_values(|p: String| p@) =~= self@.promises);
        r
    }

    /// Whether the promise `name` was awaited.
    pub fn was_promise_created(&self, name: &str) -> (r: bool)
        ensures
            r == self@.promises.contains(name@),
    {
        let mut i: usize = 0;
        while i < self.created_promises.len()
            invariant
                i <= self.created_promises@.len(),
                forall|j: int| 0 <= j < i ==> (#[trigger] self@.promises[j]) != name@,
            decreases self.created_promises@.len() - i,
        {
            if str_eq(self.created_promises[i].as_str(), name) {
                assert(self@.promises[i as int] == name@);
                return true;
            }
            i = i + 1;
        }
        false
    }

    /// Request cancellation.
    pub fn request_cancellation(&mut self)
        ensures
            final(self)@ == (MockView { cancellation_requested: true, ..old(self)@ }),
    {
        self.cancellation_requested = true;
    }

    /// Configure the result of tasks of `task_type`.
    pub fn set_task_result(&mut self, task_type: &str, result: String)
        requires
            old(self).wf(),
        ensures
            final(self).wf(),
            final(self)@ == (MockView {
                task_results: kv_insert(old(self)@.task_results, task_type@, result@),
                ..old(self)@
            }),
    {
        self.task_results.insert(task_type, result);
    }

    /// Configure the value of the promise `name`.
    pub fn set_promise_result(&mut self, name: &str, result: String)
        requires
            old(self).wf(),
        ensures
            final(self).wf(),
            final(self)@ == (MockView {
                promise_results: kv_insert(old(self)@.promise_results, name@, result@),
                ..old(self)@
            }),
    {
        self.promise_results.insert(name, result);
    }

    /// Configure the result of child workflows of `kind`.
    pub fn set_child_workflow_result(&mut self, kind: &str, result: String)
        requires
            old(self).wf(),
        ensures
            final(self).wf(),
            final(self)@ == (MockView {
                child_workflow_results: kv_insert(old(self)@.child_workflow_results, kind@, result@),
                ..old(self)@
            }),
    {
        self.child_workflow_results.insert(kind, result);
    }

    /// A copy of the workflow state.
    pub fn state_snapshot(&self) -> (r: KeyValues)
        ensures
            r@ == self@.state,
    {
        self.state.copy()
    }

    /// The workflow execution ID.
    pub fn workflow_execution_id(&self) -> (r: u128)
        ensures
            r == self@.workflow_execution_id,
    {
        self.workflow_execution_id
    }

    /// The tenant ID.
    pub fn tenant_id(&self) -> (r: u128)
        ensures
            r == self@.tenant_id,
    {
        self.tenant_id
    }

    /// The workflow input (JSON text).
    pub fn input_raw(&self) -> (r: &String)
        ensures
            r@ == self@.input,
    {
        &self.input
    }

    /// The clock's current time.
    pub fn current_time_millis(&self) -> (r: i64)
        ensures
            r == self@.time.current_time_millis,
    {
        self.time_controller.current_time_millis()
    }

    /// The next UUID: version 5 of the counter's little-endian bytes; the
    /// counter advances.
    pub fn random_uuid(&mut self) -> (r: u128)
        ensures
            r == mock_uuid(old(self)@.uuid_counter),
            final(self)@ == (MockView {
                uuid_counter: old(self)@.uuid_counter.wrapping_add(1),
                ..old(self)@
            }),
    {
        let counter = self.uuid_counter;
        self.uuid_counter = counter.wrapping_add(1);
        let bytes = to_le_bytes(counter);
        uuid_v5(MOCK_UUID_NAMESPACE, bytes.as_slice())
    }

    /// A random number in `[min, max)`: the first draw of a generator seeded
    /// with the context's seed, so every call with the same range agrees.
    pub fn random_int(&self, min: i32, max: i32) -> (r: i32)
        requires
            min < max,
        ensures
            r == spec_chacha_range_i32(self@.rng_seed, min, max),
            min <= r < max,
    {
        chacha_range_i32(self.rng_seed, min, max)
    }

    /// A random number in `[min, max)`, as [`Self::random_int`].
    pub fn random_long(&self, min: i64, max: i64) -> (r: i64)
        requires
            min < max,
        ensures
            r == spec_chacha_range_i64(self@.rng_seed, min, max),
            min <= r < max,
    {
        chacha_range_i64(self.rng_seed, min, max)
    }

    /// A random boolean, as [`Self::random_int`].
    pub fn random_bool(&self) -> (r: bool)
        ensures
            r == spec_chacha_bool(self@.rng_seed),
    {
        chacha_bool(self.rng_seed)
    }

    /// The value (JSON text) of state key `key`.
    pub fn get_raw(&self, key: &str) -> (r: Result<Option<String>, FlovynError>)
        ensures
            match r {
                Ok(v) => opt_view(v) == kv_get(self@.state, key@),
                Err(_) => false,
            },
    {
        Ok(self.state.get(key))
    }

    /// Set state key `key` to `value`.
    pub fn set_raw(&mut self, key: &str, value: String) -> (r: Result<(), FlovynError>)
        requires
            old(self).wf(),
        ensures
            final(self).wf(),
            r is Ok,
            final(self)@ == (MockView { state: kv_insert(old(self)@.state, key@, value@), ..old(self)@ }),
    {
        self.state.insert(key, value);
        Ok(())
    }

    /// Clear state key `key`.
    pub fn clear(&mut self, key: &str) -> (r: Result<(), FlovynError>)
        requires
            old(self).wf(),
        ensures
            final(self).wf(),
            r is Ok,
            final(self)@ == (MockView { state: kv_remove(old(self)@.state, key@), ..old(self)@ }),
    {
        self.state.remove(key);
        Ok(())
    }

    /// Clear every state key.
    pub fn clear_all(&mut self) -> (r: Result<(), FlovynError>)
        requires
            old(self).wf(),
        ensures
            final(self).wf(),
            r is Ok,
            final(self)@ == (MockView { state: Seq::empty(), ..old(self)@ }),
    {
        self.state = KeyValues::new();
        Ok(())
    }

    /// The state keys.
    pub fn state_keys(&self) -> (r: Result<Vec<String>, FlovynError>)
        ensures
            match r {
                Ok(v) => v@.map_values(|s: String| s@) == kv_keys(self@.state),
                Err(_) => false,
            },
    {
        Ok(self.state.keys())
    }

    /// Whether cancellation was requested.
    pub fn is_cancellation_requested(&self) -> (r: bool)
        ensures
            r == self@.cancellation_requested,
    {
        self.cancellation_requested
    }

    /// `Err(WorkflowCancelled("Cancellation requested"))` once cancellation
    /// was requested, `Ok(())` before.
    pub fn check_cancellation(&self) -> (r: Result<(), FlovynError>)
        ensures
            match r {
                Ok(()) => !self@.cancellation_requested,
                Err(e) => self@.cancellation_requested && e@ == FlovynErrorView::WorkflowCancelled(
                    "Cancellation requested"@,
                ),
            },
    {
        if self.cancellation_requested {
            Err(FlovynError::WorkflowCancelled(String::from_str("Cancellation requested")))
        } else {
            Ok(())
        }
    }

    /// Schedule a task with default options.
    pub fn schedule_raw(&mut self, task_type: &str, input: String) -> (r: Result<String, FlovynError>)
        requires
            old(self).wf(),
        ensures
            final(self).wf(),
            mock_result(r) == configured(old(self)@.task_results, "No mock result configured for task type: "@, task_type@),
            final(self)@ == (MockView {
                tasks: old(self)@.tasks.push((task_type@, input@)),
                task_options: old(self)@.task_options.push(no_task_options()),
                next_task_seq: old(self)@.next_task_seq.wrapping_add(1),
                uuid_counter: old(self)@.uuid_counter.wrapping_add(1),
                ..old(self)@
            }),
    {
        self.schedule_with_options_raw(task_type, input, ScheduleTaskOptions::default())
    }

    /// Schedule a task: it is recorded, and answered with the result
    /// configured for its type.
    pub fn schedule_with_options_raw(
        &mut self,
        task_type: &str,
        input: String,
        options: ScheduleTaskOptions,
    ) -> (r: Result<String, FlovynError>)
        requires
            old(self).wf(),
        ensures
            final(self).wf(),
            mock_result(r) == configured(old(self)@.task_results, "No mock result configured for task type: "@, task_type@),
            final(self)@ == (MockView {
                tasks: old(self)@.tasks.push((task_type@, input@)),
                task_options: old(self)@.task_options.push(task_options_view(options)),
                next_task_seq: old(self)@.next_task_seq.wrapping_add(1),
                uuid_counter: old(self)@.uuid_counter.wrapping_add(1),
                ..old(self)@
            }),
    {
        self.next_task_seq = self.next_task_seq.wrapping_add(1);
        let _task_execution_id = self.random_uuid();
        let ghost before = self@;
        self.scheduled_tasks.push(
            ScheduledTask { task_type: String::from_str(task_type), input: input.clone(), options },
        );
        assert(self@.tasks =~= before.tasks.push((task_type@, input@)));
        assert(self@.task_options =~= before.task_options.push(task_options_view(options)));
        match self.task_results.get(task_type) {
            Some(v) => Ok(v),
            None => Err(
                FlovynError::Other(
                    String::from_str("No mock result configured for task type: ").concat(task_type),
                ),
            ),
        }
    }

    /// Sleep: the timer `sleep-<n>` (with `n` the UUID counter, which
    /// advances) is registered with the clock and fires at once.
    pub fn sleep(&mut self, duration_ms: i64) -> (r: Result<(), FlovynError>)
        requires
            i64::MIN <= old(self)@.time.current_time_millis + duration_ms <= i64::MAX,
        ensures
            r is Ok,
            final(self)@ == (MockView {
                time: TimeControllerView {
                    timers: old(self)@.time.timers.push(
                        (
                            "sleep-"@ + decimal(old(self)@.uuid_counter as nat),
                            (old(self)@.time.current_time_millis + duration_ms) as i64,
                        ),
                    ),
                    ..old(self)@.time
                },
                next_timer_seq: old(self)@.next_timer_seq.wrapping_add(1),
                uuid_counter: old(self)@.uuid_counter.wrapping_add(1),
                ..old(self)@
            }),
    {
        self.next_timer_seq = self.next_timer_seq.wrapping_add(1);
        let n = self.uuid_counter;
        self.uuid_counter = n.wrapping_add(1);
        let timer_id = String::from_str("sleep-").concat(u64_to_decimal(n).as_str());
        self.time_controller.register_timer_after(timer_id.as_str(), duration_ms);
        Ok(())
    }

    /// Schedule a child workflow: it is recorded, and answered with the
    /// result configured for its kind.
    pub fn schedule_workflow_raw(&mut self, name: &str, kind: &str, input: String) -> (r: Result<
        String,
        FlovynError,
    >)
        requires
            old(self).wf(),
        ensures
            final(self).wf(),
            mock_result(r) == configured(
                old(self)@.child_workflow_results,
                "No mock result configured for child workflow kind: "@,
                kind@,
            ),
            final(self)@ == (MockView {
                workflows: old(self)@.workflows.push((name@, kind@, input@)),
                next_child_workflow_seq: old(self)@.next_child_workflow_seq.wrapping_add(1),
                uuid_counter: old(self)@.uuid_counter.wrapping_add(1),
                ..old(self)@
            }),
    {
        self.next_child_workflow_seq = self.next_child_workflow_seq.wrapping_add(1);
        let _child_execution_id = self.random_uuid();
        let ghost before = self@;
        self.scheduled_workflows.push(
            ScheduledWorkflow {
                name: String::from_str(name),
                kind: String::from_str(kind),
                input: input.clone(),
            },
        );
        assert(self@.workflows =~= before.workflows.push((name@, kind@, input@)));
        match self.child_workflow_results.get(kind) {
            Some(v) => Ok(v),
            None => Err(
                FlovynError::Other(
                    String::from_str("No mock result configured for child workflow kind: ").concat(
                        kind,
                    ),
                ),
            ),
        }
    }

    /// Await the promise `name`: it is recorded, and answered with the value
    /// configured for it.
    pub fn promise_raw(&mut self, name: &str) -> (r: Result<String, FlovynError>)
        requires
            old(self).wf(),
        ensures
            final(self).wf(),
            mock_result(r) == configured(old(self)@.promise_results, "No mock result configured for promise: "@, name@),
            final(self)@ == (MockView {
                promises: old(self)@.promises.push(name@),
                next_promise_seq: old(self)@.next_promise_seq.wrapping_add(1),
                ..old(self)@
            }),
    {
        self.next_promise_seq = self.next_promise_seq.wrapping_add(1);
        let ghost before = self@;
        self.created_promises.push(String::from_str(name));
        assert(self@.promises =~= before.promises.push(name@));
        match self.promise_results.get(name) {
            Some(v) => Ok(v),
            None => Err(
                FlovynError::Other(
                    String::from_str("No mock result configured for promise: ").concat(name),
                ),
            ),
        }
    }

    /// Await the promise `name`; the mock ignores the timeout.
    pub fn promise_with_timeout_raw(&mut self, name: &str, timeout_ms: i64) -> (r: Result<
        String,
        FlovynError,
    >)
        requires
            old(self).wf(),
        ensures
            final(self).wf(),
            mock_result(r) == configured(old(self)@.promise_results, "No mock result configured for promise: "@, name@),
            final(self)@ == (MockView {
                promises: old(self)@.promises.push(name@),
                next_promise_seq: old(self)@.next_promise_seq.wrapping_add(1),
                ..old(self)@
            }),
    {
        self.promise_raw(name)
    }

    /// Run a side-effect operation: it is recorded and answers its result.
    pub fn run_raw(&mut self, name: &str, result: String) -> (r: Result<String, FlovynError>)
        ensures
            mock_result(r) == Ok::<Seq<char>, FlovynErrorView>(result@),
            final(self)@ == (MockView {
                operations: old(self)@.operations.push((name@, result@)),
                next_operation_seq: old(self)@.next_operation_seq.wrapping_add(1),
                ..old(self)@
            }),
    {
        self.next_operation_seq = self.next_operation_seq.wrapping_add(1);
        let ghost before = self@;
        self.recorded_operations.push(
            RecordedOperation { name: String::from_str(name), result: result.clone() },
        );
        assert(self@.operations =~= before.operations.push((name@, result@)));
        Ok(result)
    }
}

/// Builds mock workflow contexts.
pub struct MockWorkflowContextBuilder {
    workflow_execution_id: Option<u128>,
    tenant_id: Option<u128>,
    input: Option<String>,
    initial_time_millis: Option<i64>,
    initial_state: KeyValues,
    task_results: KeyValues,
    promise_results: KeyValues,
    child_workflow_results: KeyValues,
    rng_seed: Option<u64>,
}

impl MockWorkflowContextBuilder {
    /// The builder's invariant: its maps have unique keys.
    pub closed spec fn wf(&self) -> bool {
        &&& self.initial_state.wf()
        &&& self.task_results.wf()
        &&& self.promise_results.wf()
        &&& self.child_workflow_results.wf()
    }

    /// Whether nothing is set.
    pub open spec fn is_empty(&self) -> bool {
        &&& self.execution_id() is None
        &&& self.tenant() is None
        &&& self.input_text() is None
        &&& self.time() is None
        &&& self.state_view().len() == 0
        &&& self.tasks().len() == 0
        &&& self.promises().len() == 0
        &&& self.workflows().len() == 0
        &&& self.seed() is None
    }

    /// The configured workflow execution ID.
    pub closed spec fn execution_id(&self) -> Option<u128> {
        self.workflow_execution_id
    }

    /// The configured tenant ID.
    pub closed spec fn tenant(&self) -> Option<u128> {
        self.tenant_id
    }

    /// The configured input.
    pub closed spec fn input_text(&self) -> Option<Seq<char>> {
        opt_view(self.input)
    }

    /// The configured time.
    pub closed spec fn time(&self) -> Option<i64> {
        self.initial_time_millis
    }

    /// The configured state.
    pub closed spec fn state_view(&self) -> KvView {
        self.initial_state@
    }

    /// The configured task results.
    pub closed spec fn tasks(&self) -> KvView {
        self.task_results@
    }

    /// The configured promise values.
    pub closed spec fn promises(&self) -> KvView {
        self.promise_results@
    }

    /// The configured child workflow results.
    pub closed spec fn workflows(&self) -> KvView {
        self.child_workflow_results@
    }

    /// The configured seed.
    pub closed spec fn seed(&self) -> Option<u64> {
        self.rng_seed
    }

    /// A builder with nothing set.
    pub fn new() -> (r: Self)
        ensures
            r.wf(),
            r.is_empty(),
    {
        MockWorkflowContextBuilder {
            workflow_execution_id: None,
            tenant_id: None,
            input: None,
            initial_time_millis: None,
            initial_state: KeyValues::new(),
            task_results: KeyValues::new(),
            promise_results: KeyValues::new(),
            child_workflow_results: KeyValues::new(),
            rng_seed: None,
        }
    }

    /// Set the workflow execution ID.
    pub fn workflow_execution_id(self, id: u128) -> (r: Self)
        requires
            self.wf(),
        ensures
            r.wf(),
            r.execution_id() == Some(id),
            r.tenant() == self.tenant() && r.input_text() == self.input_text() && r.time()
                == self.time() && r.state_view() == self.state_view() && r.tasks() == self.tasks()
                && r.promises() == self.promises() && r.workflows() == self.workflows()
                && r.seed() == self.seed(),
    {
        MockWorkflowContextBuilder { workflow_execution_id: Some(id), ..self }
    }

    /// Set the tenant ID.
    pub fn tenant_id(self, id: u128) -> (r: Self)
        requires
            self.wf(),
        ensures
            r.wf(),
            r.tenant() == Some(id),
            r.execution_id() == self.execution_id() && r.input_text() == self.input_text()
                && r.time() == self.time() && r.state_view() == self.state_view() && r.tasks()
                == self.tasks() && r.promises() == self.promises() && r.workflows()
                == self.workflows() && r.seed() == self.seed(),
    {
        MockWorkflowContextBuilder { tenant_id: Some(id), ..self }
    }

    /// Set the workflow input (JSON text).
    pub fn input(self, input: String) -> (r: Self)
        requires
            self.wf(),
        ensures
            r.wf(),
            r.input_text() == Some(input@),
            r.execution_id() == self.execution_id() && r.tenant() == self.tenant() && r.time()
                == self.time() && r.state_view() == self.state_view() && r.tasks() == self.tasks()
                && r.promises() == self.promises() && r.workflows() == self.workflows()
                && r.seed() == self.seed(),
    {
        MockWorkflowContextBuilder { input: Some(input), ..self }
    }

    /// Set the initial time.
    pub fn initial_time_millis(self, time: i64) -> (r: Self)
        requires
            self.wf(),
        ensures
            r.wf(),
            r.time() == Some(time),
            r.execution_id() == self.execution_id() && r.tenant() == self.tenant()
                && r.input_text() == self.input_text() && r.state_view() == self.state_view() && r.tasks()
                == self.tasks() && r.promises() == self.promises() && r.workflows()
                == self.workflows() && r.seed() == self.seed(),
    {
        MockWorkflowContextBuilder { initial_time_millis: Some(time), ..self }
    }

    /// Set an initial state value.
    pub fn state(self, key: &str, value: String) -> (r: Self)
        requires
            self.wf(),
        ensures
            r.wf(),
            r.state_view() == kv_insert(self.state_view(), key@, value@),
            r.execution_id() == self.execution_id() && r.tenant() == self.tenant()
                && r.input_text() == self.input_text() && r.time() == self.time() && r.tasks()
                == self.tasks() && r.promises() == self.promises() && r.workflows()
                == self.workflows() && r.seed() == self.seed(),
    {
        let mut s = self;
        s.initial_state.insert(key, value);
        s
    }

    /// Configure the result of tasks of `task_type`.
    pub fn task_result(self, task_type: &str, result: String) -> (r: Self)
        requires
            self.wf(),
        ensures
            r.wf(),
            r.tasks() == kv_insert(self.tasks(), task_type@, result@),
            r.execution_id() == self.execution_id() && r.tenant() == self.tenant()
                && r.input_text() == self.input_text() && r.time() == self.time() && r.state_view()
                == self.state_view() && r.promises() == self.promises() && r.workflows()
                == self.workflows() && r.seed() == self.seed(),
    {
        let mut s = self;
        s.task_results.insert(task_type, result);
        s
    }

    /// Configure the value of the promise `name`.
    pub fn promise_result(self, name: &str, result: String) -> (r: Self)
        requires
            self.wf(),
        ensures
            r.wf(),
            r.promises() == kv_insert(self.promises(), name@, result@),
            r.execution_id() == self.execution_id() && r.tenant() == self.tenant()
                && r.input_text() == self.input_text() && r.time() == self.time() && r.state_view()
                == self.state_view() && r.tasks() == self.tasks() && r.workflows() == self.workflows()
                && r.seed() == self.seed(),
    {
        let mut s = self;
        s.promise_results.insert(name, result);
        s
    }

    /// Configure the result of child workflows of `kind`.
    pub fn child_workflow_result(self, kind: &str, result: String) -> (r: Self)
        requires
            self.wf(),
        ensures
            r.wf(),
            r.workflows() == kv_insert(self.workflows(), kind@, result@),
            r.execution_id() == self.execution_id() && r.tenant() == self.tenant()
                && r.input_text() == self.input_text() && r.time() == self.time() && r.state_view()
                == self.state_view() && r.tasks() == self.tasks() && r.promises() == self.promises()
                && r.seed() == self.seed(),
    {
        let mut s = self;
        s.child_workflow_results.insert(kind, result);
        s
    }

    /// Configure every task result and promise value at once.
    pub(crate) fn results(self, tasks: KeyValues, promises: KeyValues) -> (r: Self)
        requires
            self.wf(),
            tasks.wf(),
            promises.wf(),
        ensures
            r.wf(),
            r.tasks() == tasks@,
            r.promises() == promises@,
            r.execution_id() == self.execution_id() && r.tenant() == self.tenant()
                && r.input_text() == self.input_text() && r.time() == self.time() && r.state_view()
                == self.state_view() && r.workflows() == self.workflows() && r.seed() == self.seed(),
    {
        MockWorkflowContextBuilder { task_results: tasks, promise_results: promises, ..self }
    }

    /// Set the seed of random numbers.
    pub fn rng_seed(self, seed: u64) -> (r: Self)
        requires
            self.wf(),
        ensures
            r.wf(),
            r.seed() == Some(seed),
            r.execution_id() == self.execution_id() && r.tenant() == self.tenant()
                && r.input_text() == self.input_text() && r.time() == self.time() && r.state_view()
                == self.state_view() && r.tasks() == self.tasks() && r.promises() == self.promises()
                && r.workflows() == self.workflows(),
    {
        MockWorkflowContextBuilder { rng_seed: Some(seed), ..self }
    }

    /// Build the context: IDs not set are fresh random ones, the time not
    /// set is the current time, the input not set is `null`, and the seed
    /// not set is the default one.
    pub fn build(self) -> (r: MockWorkflowContext)
        requires
            self.wf(),
        ensures
            r.wf(),
            self.execution_id() matches Some(id) ==> r@.workflow_execution_id == id,
            self.execution_id() is None ==> is_random_uuid(r@.workflow_execution_id),
            self.tenant() matches Some(id) ==> r@.tenant_id == id,
            self.tenant() is None ==> is_random_uuid(r@.tenant_id),
            r@.input == match self.input_text() {
                Some(s) => s,
                None => "null"@,
            },
            self.time() matches Some(t) ==> r@.time.current_time_millis == t,
            r@.time.timers.len() == 0,
            r@.state == self.state_view(),
            r@.task_results == self.tasks(),
            r@.promise_results == self.promises(),
            r@.child_workflow_results == self.workflows(),
            r@.operations.len() == 0,
            r@.tasks.len() == 0,
            r@.task_options.len() == 0,
            r@.workflows.len() == 0,
            r@.promises.len() == 0,
            !r@.cancellation_requested,
            r@.uuid_counter == 0,
            r@.rng_seed == match self.seed() {
                Some(s) => s,
                None => DEFAULT_RNG_SEED,
            },
            r@.next_task_seq == 0 && r@.next_timer_seq == 0 && r@.next_child_workflow_seq == 0
                && r@.next_promise_seq == 0 && r@.next_operation_seq == 0,
    {
        let time_controller = match self.initial_time_millis {
            Some(t) => TimeController::with_initial_time(t),
            None => TimeController::new(),
        };
        let workflow_execution_id = match self.workflow_execution_id {
            Some(id) => id,
            None => uuid_v4(),
        };
        let tenant_id = match self.tenant_id {
            Some(id) => id,
            None => uuid_v4(),
        };
        let input = match self.input {
            Some(s) => s,
            None => String::from_str("null"),
        };
        let rng_seed = match self.rng_seed {
            Some(s) => s,
            None => DEFAULT_RNG_SEED,
        };
        let r = MockWorkflowContext {
            workflow_execution_id,
            tenant_id,
            input,
            time_controller,
            state: self.initial_state,
            task_results: self.task_results,
            promise_results: self.promise_results,
            child_workflow_results: self.child_workflow_results,
            recorded_operations: Vec::new(),
            scheduled_tasks: Vec::new(),
            scheduled_workflows: Vec::new(),
            created_promises: Vec::new(),
            cancellation_requested: false,
            uuid_counter: 0,
            rng_seed,
            next_task_seq: 0,
            next_timer_seq: 0,
            next_child_workflow_seq: 0,
            next_promise_seq: 0,
            next_operation_seq: 0,
        };
        assert(r@.operations =~= Seq::<(Seq<char>, Seq<char>)>::empty());
        assert(r@.tasks =~= Seq::<(Seq<char>, Seq<char>)>::empty());
        assert(r@.workflows =~= Seq::<(Seq<char>, Seq<char>, Seq<char>)>::empty());
        assert(r@.promises =~= Seq::<Seq<char>>::empty());
        r
    }
}

} // verus!
