//! An in-memory environment that runs registered workflows and tasks
//! against mock contexts, with a controllable clock and a history of the
//! executions.
//!
//! Running the workflow or task itself is the caller's part: the
//! environment prepares the run (looks the kind up and builds the mock
//! context) and records its outcome.

use crate::common::ids::{is_random_uuid, uuid_v4};
use crate::common::kv::{KeyValues, KvView, kv_insert};
use crate::common::text::{copy_opt_string, opt_view};
use crate::error::{FlovynError, FlovynErrorView, error_message};
use crate::task::registry::{duplicate_task_message, RegisteredTask, TaskRegistry};
use crate::testing::mock_task_context::{MockTaskContext, MockTaskContextBuilder};
use crate::testing::mock_workflow_context::{MockWorkflowContext, MockWorkflowContextBuilder};
use crate::testing::time_controller::{TimeController, TimeControllerView, TimerView, due_ids, not_due};
use crate::worker::registry::{duplicate_workflow_message, RegisteredWorkflow, WorkflowRegistry};
use crate::common::filter::{lemma_filter_empty, lemma_filter_push};
use vstd::prelude::*;

verus! {

/// What an execution ran.
#[derive(Debug, Clone, Copy, PartialEq, Eq, Structural)]
pub enum ExecutionType {
    Workflow,
    Task,
}

/// The record of one execution: what ran, on which input (JSON text), what
/// it gave back or the message of its error, and the clock's time when it
/// started and completed.
#[derive(Debug, Clone)]
pub struct ExecutionRecord {
    pub execution_type: ExecutionType,
    pub kind: String,
    pub input: String,
    pub output: Option<String>,
    pub error: Option<String>,
    pub started_at: i64,
    pub completed_at: Option<i64>,
}

/// An execution record as mathematical values.
pub struct ExecutionRecordView {
    pub execution_type: ExecutionType,
    pub kind: Seq<char>,
    pub input: Seq<char>,
    pub output: Option<Seq<char>>,
    pub error: Option<Seq<char>>,
    pub started_at: i64,
    pub completed_at: Option<i64>,
}

impl View for ExecutionRecord {
    type V = ExecutionRecordView;

    open spec fn view(&self) -> ExecutionRecordView {
        ExecutionRecordView {
            execution_type: self.execution_type,
            kind: self.kind@,
            input: self.input@,
            output: opt_view(self.output),
            error: opt_view(self.error),
            started_at: self.started_at,
            completed_at: self.completed_at,
        }
    }
}

/// A list of records as mathematical values.
pub open spec fn records_view(v: Seq<ExecutionRecord>) -> Seq<ExecutionRecordView> {
    v.map_values(|r: ExecutionRecord| r@)
}

/// The records of `history` of type `t`, in order.
pub open spec fn records_of_type(history: Seq<ExecutionRecordView>, t: ExecutionType) -> Seq<
    ExecutionRecordView,
> {
    history.filter(of_type(t))
}

/// Whether a record is of type `t`.
pub open spec fn of_type(t: ExecutionType) -> spec_fn(ExecutionRecordView) -> bool {
    |r: ExecutionRecordView| r.execution_type == t
}

/// The record of an execution of `t` and `kind` on `input` that gave
/// `result`, started at `started_at` and completed at `completed_at`.
pub open spec fn completed_record(
    t: ExecutionType,
    kind: Seq<char>,
    input: Seq<char>,
    result: Result<Seq<char>, FlovynErrorView>,
    started_at: i64,
    completed_at: i64,
) -> ExecutionRecordView {
    ExecutionRecordView {
        execution_type: t,
        kind,
        input,
        output: match result {
            Ok(v) => Some(v),
            Err(_) => None,
        },
        error: match result {
            Ok(_) => None,
            Err(e) => Some(error_message(e)),
        },
        started_at,
        completed_at: Some(completed_at),
    }
}

/// The result of a run as mathematical values.
pub open spec fn run_result(r: Result<String, FlovynError>) -> Result<Seq<char>, FlovynErrorView> {
    match r {
        Ok(v) => Ok(v@),
        Err(e) => Err(e@),
    }
}

/// The error of a run of a kind that is not registered.
pub open spec fn not_registered(what: Seq<char>, kind: Seq<char>) -> FlovynErrorView {
    FlovynErrorView::Other(what + kind)
}

/// A test environment as mathematical values.
pub struct TestEnvironmentView<W, T> {
    /// The registered workflows, in registration order.
    pub workflows: Seq<RegisteredWorkflow<W>>,
    /// The registered tasks, in registration order.
    pub tasks: Seq<RegisteredTask<T>>,
    /// The kinds of the registered workflows, in the same order.
    pub workflow_kinds: Seq<Seq<char>>,
    /// The kinds of the registered tasks, in the same order.
    pub task_kinds: Seq<Seq<char>>,
    pub time: TimeControllerView,
    pub org_id: u128,
    pub task_results: KvView,
    pub promise_results: KvView,
    pub history: Seq<ExecutionRecordView>,
}

/// An in-memory environment for workflow and task tests.
pub struct TestWorkflowEnvironment<W, T> {
    workflow_registry: WorkflowRegistry<W>,
    task_registry: TaskRegistry<T>,
    time_controller: TimeController,
    org_id: u128,
    task_results: KeyValues,
    promise_results: KeyValues,
    execution_history: Vec<ExecutionRecord>,
}

impl<W, T> View for TestWorkflowEnvironment<W, T> {
    type V = TestEnvironmentView<W, T>;

    closed spec fn view(&self) -> TestEnvironmentView<W, T> {
        TestEnvironmentView {
            workflows: self.workflow_registry.workflows(),
            tasks: self.task_registry.tasks(),
            workflow_kinds: self.workflow_registry.kinds(),
            task_kinds: self.task_registry.kinds(),
            time: self.time_controller@,
            org_id: self.org_id,
            task_results: self.task_results@,
            promise_results: self.promise_results@,
            history: records_view(self.execution_history@),
        }
    }
}

fn copy_record(r: &ExecutionRecord) -> (c: ExecutionRecord)
    ensures
        c@ == r@,
{
    ExecutionRecord {
        execution_type: r.execution_type,
        kind: r.kind.clone(),
        input: r.input.clone(),
        output: copy_opt_string(&r.output),
        error: copy_opt_string(&r.error),
        started_at: r.started_at,
        completed_at: r.completed_at,
    }
}

impl<W, T> TestWorkflowEnvironment<W, T> {
    /// The environment's invariant: registries and maps have unique keys.
    pub closed spec fn wf(&self) -> bool {
        &&& self.workflow_registry.wf()
        &&& self.task_registry.wf()
        &&& self.task_results.wf()
        &&& self.promise_results.wf()
    }

    /// An empty environment whose clock starts at `initial_time_millis`,
    /// with a fresh random tenant ID.
    pub fn with_initial_time(initial_time_millis: i64) -> (r: Self)
        ensures
            r.wf(),
            is_random_uuid(r@.org_id),
            r@.workflows.len() == 0,
            r@.tasks.len() == 0,
            r@.workflow_kinds.len() == 0,
            r@.task_kinds.len() == 0,
            r@.time == (TimeControllerView {
                current_time_millis: initial_time_millis,
                timers: Seq::empty(),
            }),
            r@.task_results.len() == 0,
            r@.promise_results.len() == 0,
            r@.history.len() == 0,
    {
        Self::with_clock(TimeController::with_initial_time(initial_time_millis))
    }

    /// An empty environment whose clock starts at the current time, with a
    /// fresh random tenant ID.
    pub fn new() -> (r: Self)
        ensures
            r.wf(),
            is_random_uuid(r@.org_id),
            r@.workflows.len() == 0,
            r@.tasks.len() == 0,
            r@.workflow_kinds.len() == 0,
            r@.task_kinds.len() == 0,
            r@.time.timers.len() == 0,
            r@.task_results.len() == 0,
            r@.promise_results.len() == 0,
            r@.history.len() == 0,
    {
        Self::with_clock(TimeController::new())
    }

    fn with_clock(time_controller: TimeController) -> (r: Self)
        ensures
            r.wf(),
            is_random_uuid(r@.org_id),
            r@.workflows.len() == 0,
            r@.tasks.len() == 0,
            r@.workflow_kinds.len() == 0,
            r@.task_kinds.len() == 0,
            r@.time == time_controller@,
            r@.task_results.len() == 0,
            r@.promise_results.len() == 0,
            r@.history.len() == 0,
    {
        let r = TestWorkflowEnvironment {
            workflow_registry: WorkflowRegistry::new(),
            task_registry: TaskRegistry::new(),
            time_controller,
            org_id: uuid_v4(),
            task_results: KeyValues::new(),
            promise_results: KeyValues::new(),
            execution_history: Vec::new(),
        };
        assert(r@.workflow_kinds =~= Seq::<Seq<char>>::empty());
        assert(r@.task_kinds =~= Seq::<Seq<char>>::empty());
        r
    }

    /// The clock.
    pub fn time_controller(&self) -> (r: &TimeController)
        ensures
            r@ == self@.time,
    {
        &self.time_controller
    }

    /// The tenant ID.
    pub fn org_id(&self) -> (r: u128)
        ensures
            r == self@.org_id,
    {
        self.org_id
    }

    /// Register a workflow; a kind can be registered once only.
    pub fn register_workflow(&mut self, workflow: RegisteredWorkflow<W>) -> (r: Result<
        (),
        FlovynError,
    >)
        requires
            old(self).wf(),
        ensures
            final(self).wf(),
            match r {
                Ok(()) => !old(self)@.workflow_kinds.contains(workflow.metadata.kind@)
                    && final(self)@ == (TestEnvironmentView {
                    workflows: old(self)@.workflows.push(workflow),
                    workflow_kinds: old(self)@.workflow_kinds.push(workflow.metadata.kind@),
                    ..old(self)@
                }),
                Err(e) => old(self)@.workflow_kinds.contains(workflow.metadata.kind@) && final(self)@
                    == old(self)@ && e@ == FlovynErrorView::InvalidConfiguration(
                    duplicate_workflow_message(workflow.metadata.kind@),
                ),
            },
    {
        let ghost k = workflow.metadata.kind@;
        let r = self.workflow_registry.register_raw(workflow);
        proof {
            if r is Ok {
                assert(self.workflow_registry.kinds() =~= old(self).workflow_registry.kinds().push(
                    k,
                ));
            }
        }
        r
    }

    /// Register a task; a kind can be registered once only.
    pub fn register_task(&mut self, task: RegisteredTask<T>) -> (r: Result<(), FlovynError>)
        requires
            old(self).wf(),
        ensures
            final(self).wf(),
            match r {
                Ok(()) => !old(self)@.task_kinds.contains(task.metadata.kind@) && final(self)@ == (
                TestEnvironmentView {
                    tasks: old(self)@.tasks.push(task),
                    task_kinds: old(self)@.task_kinds.push(task.metadata.kind@),
                    ..old(self)@
                }),
                Err(e) => old(self)@.task_kinds.contains(task.metadata.kind@) && final(self)@
                    == old(self)@ && e@ == FlovynErrorView::InvalidConfiguration(
                    duplicate_task_message(task.metadata.kind@),
                ),
            },
    {
        let ghost k = task.metadata.kind@;
        let r = self.task_registry.register_raw(task);
        proof {
            if r is Ok {
                assert(self.task_registry.kinds() =~= old(self).task_registry.kinds().push(k));
            }
        }
        r
    }

    /// Set the result that tasks of `task_type` give in workflow runs.
    pub fn set_task_result(&mut self, task_type: &str, result: String)
        requires
            old(self).wf(),
        ensures
            final(self).wf(),
            final(self)@ == (TestEnvironmentView {
                task_results: kv_insert(old(self)@.task_results, task_type@, result@),
                ..old(self)@
            }),
    {
        self.task_results.insert(task_type, result);
    }

    /// Set the value that the promise `name` gets in workflow runs.
    pub fn set_promise_result(&mut self, name: &str, result: String)
        requires
            old(self).wf(),
        ensures
            final(self).wf(),
            final(self)@ == (TestEnvironmentView {
                promise_results: kv_insert(old(self)@.promise_results, name@, result@),
                ..old(self)@
            }),
    {
        self.promise_results.insert(name, result);
    }

    /// Prepare a run of the workflow `kind` on `input`: the registered
    /// workflow, a mock context with a fresh execution ID, the tenant ID,
    /// the input, the clock's time and the configured task and promise
    /// results, and the start time. `Other("Workflow not registered: ..")`
    /// when no workflow of that kind is registered.
    pub fn prepare_workflow(&self, kind: &str, input: &str) -> (r: Result<
        (&RegisteredWorkflow<W>, MockWorkflowContext, i64),
        FlovynError,
    >)
        requires
            self.wf(),
        ensures
            match r {
                Ok((w, ctx, started_at)) => {
                    &&& self@.workflow_kinds.contains(kind@)
                    &&& w.metadata.kind@ == kind@
                    &&& started_at == self@.time.current_time_millis
                    &&& ctx.wf()
                    &&& is_random_uuid(ctx@.workflow_execution_id)
                    &&& ctx@.tenant_id == self@.org_id
                    &&& ctx@.input == input@
                    &&& ctx@.time.current_time_millis == started_at
                    &&& ctx@.time.timers.len() == 0
                    &&& ctx@.task_results == self@.task_results
                    &&& ctx@.promise_results == self@.promise_results
                    &&& ctx@.child_workflow_results.len() == 0
                    &&& ctx@.state.len() == 0
                },
                Err(e) => !self@.workflow_kinds.contains(kind@) && e@ == not_registered(
                    "Workflow not registered: "@,
                    kind@,
                ),
            },
    {
        let started_at = self.time_controller.current_time_millis();
        match self.workflow_registry.get(kind) {
            None => Err(
                FlovynError::Other(String::from_str("Workflow not registered: ").concat(kind)),
            ),
            Some(w) => {
                let builder = MockWorkflowContextBuilder::new().workflow_execution_id(
                    uuid_v4(),
                ).tenant_id(self.org_id).input(String::from_str(input)).initial_time_millis(
                    started_at,
                ).results(self.task_results.copy(), self.promise_results.copy());
                Ok((w, builder.build(), started_at))
            },
        }
    }

    /// Record the run of the workflow `kind` on `input`, started at
    /// `started_at`, that gave `result`; completed now.
    pub fn record_workflow(
        &mut self,
        kind: &str,
        input: String,
        result: &Result<String, FlovynError>,
        started_at: i64,
    )
        ensures
            final(self).wf() == old(self).wf(),
            final(self)@ == (TestEnvironmentView {
                history: old(self)@.history.push(
                    completed_record(
                        ExecutionType::Workflow,
                        kind@,
                        input@,
                        run_result(*result),
                        started_at,
                        old(self)@.time.current_time_millis,
                    ),
                ),
                ..old(self)@
            }),
    {
        self.record(ExecutionType::Workflow, kind, input, result, started_at)
    }

    /// Prepare a run of the task `kind`: the registered task, a mock task
    /// context with a fresh execution ID at attempt 1, and the start time.
    /// `Other("Task not registered: ..")` when no task of that kind is
    /// registered.
    pub fn prepare_task(&self, kind: &str) -> (r: Result<
        (&RegisteredTask<T>, MockTaskContext, i64),
        FlovynError,
    >)
        requires
            self.wf(),
        ensures
            match r {
                Ok((t, ctx, started_at)) => {
                    &&& self@.task_kinds.contains(kind@)
                    &&& t.metadata.kind@ == kind@
                    &&& started_at == self@.time.current_time_millis
                    &&& is_random_uuid(ctx@.task_execution_id)
                    &&& ctx@.attempt == 1
                    &&& !ctx@.cancelled
                    &&& ctx@.logs.len() == 0
                },
                Err(e) => !self@.task_kinds.contains(kind@) && e@ == not_registered(
                    "Task not registered: "@,
                    kind@,
                ),
            },
    {
        let started_at = self.time_controller.current_time_millis();
        match self.task_registry.get(kind) {
            None => Err(FlovynError::Other(String::from_str("Task not registered: ").concat(kind))),
            Some(t) => {
                let ctx = MockTaskContextBuilder::new().task_execution_id(uuid_v4()).attempt(
                    1,
                ).build();
                Ok((t, ctx, started_at))
            },
        }
    }

    /// Record the run of the task `kind` on `input`, started at
    /// `started_at`, that gave `result`; completed now.
    pub fn record_task(
        &mut self,
        kind: &str,
        input: String,
        result: &Result<String, FlovynError>,
        started_at: i64,
    )
        ensures
            final(self).wf() == old(self).wf(),
            final(self)@ == (TestEnvironmentView {
                history: old(self)@.history.push(
                    completed_record(
                        ExecutionType::Task,
                        kind@,
                        input@,
                        run_result(*result),
                        started_at,
                        old(self)@.time.current_time_millis,
                    ),
                ),
                ..old(self)@
            }),
    {
        self.record(ExecutionType::Task, kind, input, result, started_at)
    }

    fn record(
        &mut self,
        execution_type: ExecutionType,
        kind: &str,
        input: String,
        result: &Result<String, FlovynError>,
        started_at: i64,
    )
        ensures
            final(self).wf() == old(self).wf(),
            final(self)@ == (TestEnvironmentView {
                history: old(self)@.history.push(
                    completed_record(
                        execution_type,
                        kind@,
                        input@,
                        run_result(*result),
                        started_at,
                        old(self)@.time.current_time_millis,
                    ),
                ),
                ..old(self)@
            }),
    {
        let completed_at = self.time_controller.current_time_millis();
        let (output, error) = match result {
            Ok(v) => (Some(v.clone()), None),
            Err(e) => (None, Some(e.to_string())),
        };
        let record = ExecutionRecord {
            execution_type,
            kind: String::from_str(kind),
            input,
            output,
            error,
            started_at,
            completed_at: Some(completed_at),
        };
        let ghost before = records_view(self.execution_history@);
        let ghost rv = record@;
        self.execution_history.push(record);
        assert(records_view(self.execution_history@) =~= before.push(rv));
    }

    /// Every execution record, in order.
    pub fn execution_history(&self) -> (r: Vec<ExecutionRecord>)
        ensures
            records_view(r@) == self@.history,
    {
        let mut r: Vec<ExecutionRecord> = Vec::new();
        let mut i: usize = 0;
        while i < self.execution_history.len()
            invariant
                i <= self.execution_history@.len(),
                records_view(r@) == self@.history.take(i as int),
            decreases self.execution_history@.len() - i,
        {
            let c = copy_record(&self.execution_history[i]);
            let ghost old_r = records_view(r@);
            r.push(c);
            proof {
                assert(records_view(r@) =~= old_r.push(c@));
                assert(self@.history.take(i + 1) =~= self@.history.take(i as int).push(c@));
            }
            i = i + 1;
        }
        assert(self@.history.take(self.execution_history@.len() as int) =~= self@.history);
        r
    }

    fn executions_of_type(&self, t: ExecutionType) -> (r: Vec<ExecutionRecord>)
        ensures
            records_view(r@) == records_of_type(self@.history, t),
    {
        let mut r: Vec<ExecutionRecord> = Vec::new();
        let mut i: usize = 0;
        proof {
            lemma_filter_empty(self@.history.take(0), of_type(t));
            assert(records_view(r@) =~= Seq::<ExecutionRecordView>::empty());
        }
        while i < self.execution_history.len()
            invariant
                i <= self.execution_history@.len(),
                records_view(r@) == records_of_type(self@.history.take(i as int), t),
            decreases self.execution_history@.len() - i,
        {
            let ghost prefix = self@.history.take(i as int);
            proof {
                assert(self@.history.take(i + 1) =~= prefix.push(self@.history[i as int]));
                lemma_filter_push(prefix, self@.history[i as int], of_type(t));
            }
            if self.execution_history[i].execution_type == t {
                let c = copy_record(&self.execution_history[i]);
                let ghost old_r = records_view(r@);
                r.push(c);
                proof {
                    assert(records_view(r@) =~= old_r.push(self@.history[i as int]));
                }
            }
            i = i + 1;
        }
        assert(self@.history.take(self.execution_history@.len() as int) =~= self@.history);
        r
    }

    /// The workflow execution records, in order.
    pub fn workflow_executions(&self) -> (r: Vec<ExecutionRecord>)
        ensures
            records_view(r@) == records_of_type(self@.history, ExecutionType::Workflow),
    {
        self.executions_of_type(ExecutionType::Workflow)
    }

    /// The task execution records, in order.
    pub fn task_executions(&self) -> (r: Vec<ExecutionRecord>)
        ensures
            records_view(r@) == records_of_type(self@.history, ExecutionType::Task),
    {
        self.executions_of_type(ExecutionType::Task)
    }

    /// Forget every execution record.
    pub fn clear_history(&mut self)
        ensures
            final(self).wf() == old(self).wf(),
            final(self)@ == (TestEnvironmentView { history: Seq::empty(), ..old(self)@ }),
    {
        self.execution_history = Vec::new();
        assert(records_view(self.execution_history@) =~= Seq::<ExecutionRecordView>::empty());
    }

    /// Advance the clock by `advance_millis`, firing the timers then due;
    /// answers their IDs.
    pub fn advance_time(&mut self, advance_millis: i64) -> (r: Vec<String>)
        requires
            i64::MIN <= old(self)@.time.current_time_millis + advance_millis <= i64::MAX,
        ensures
            final(self).wf() == old(self).wf(),
            final(self)@.time.current_time_millis == old(self)@.time.current_time_millis
                + advance_millis,
            r@.map_values(|s: String| s@) == due_ids(
                old(self)@.time.timers,
                final(self)@.time.current_time_millis,
            ),
            final(self)@ == (TestEnvironmentView {
                time: TimeControllerView {
                    current_time_millis: final(self)@.time.current_time_millis,
                    timers: not_due(old(self)@.time.timers, final(self)@.time.current_time_millis),
                },
                ..old(self)@
            }),
    {
        self.time_controller.advance(advance_millis)
    }

    /// Fire every pending timer, moving the clock to the latest of them;
    /// answers their IDs in registration order.
    pub fn skip_all_timers(&mut self) -> (r: Vec<String>)
        ensures
            final(self).wf() == old(self).wf(),
            r@.map_values(|s: String| s@) == old(self)@.time.timers.map_values(|x: TimerView| x.0),
            final(self)@.time.timers.len() == 0,
            final(self)@ == (TestEnvironmentView { time: final(self)@.time, ..old(self)@ }),
    {
        self.time_controller.skip_all_timers()
    }
}

impl<W, T> Default for TestWorkflowEnvironment<W, T> {
    fn default() -> (r: Self)
        ensures
            r.wf(),
            is_random_uuid(r@.org_id),
            r@.workflows.len() == 0,
            r@.tasks.len() == 0,
            r@.workflow_kinds.len() == 0,
            r@.task_kinds.len() == 0,
            r@.time.timers.len() == 0,
            r@.task_results.len() == 0,
            r@.promise_results.len() == 0,
            r@.history.len() == 0,
    {
        Self::new()
    }
}

/// Every execution record is a workflow's or a task's: the workflow
/// executions and the task executions together are the whole history.
pub proof fn law_executions_partition_history(history: Seq<ExecutionRecordView>)
    ensures
        records_of_type(history, ExecutionType::Workflow).len() + records_of_type(
            history,
            ExecutionType::Task,
        ).len() == history.len(),
    decreases history.len(),
{
    if history.len() == 0 {
        lemma_filter_empty(history, of_type(ExecutionType::Workflow));
        lemma_filter_empty(history, of_type(ExecutionType::Task));
    } else {
        let d = history.drop_last();
        law_executions_partition_history(d);
        assert(d.push(history.last()) =~= history);
        lemma_filter_push(d, history.last(), of_type(ExecutionType::Workflow));
        lemma_filter_push(d, history.last(), of_type(ExecutionType::Task));
    }
}

} // verus!
