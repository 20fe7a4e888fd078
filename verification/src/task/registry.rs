//! The registry of the task kinds a worker can execute.

use vstd::prelude::*;
use crate::common::text::{copy_opt_string, copy_strings, opt_view, str_eq, strings_view};
use crate::common::version::SemanticVersion;
use crate::error::{FlovynError, FlovynErrorView};

verus! {

/// What a worker tells the server about a task kind.
#[derive(Debug, Clone)]
pub struct TaskMetadata {
    /// The unique task kind.
    pub kind: String,
    /// Human-readable name.
    pub name: String,
    /// Description of the task.
    pub description: Option<String>,
    /// Version of the task.
    pub version: Option<SemanticVersion>,
    /// Tags for categorization.
    pub tags: Vec<String>,
    /// Timeout in seconds.
    pub timeout_seconds: Option<u32>,
    /// Whether the task can be cancelled.
    pub cancellable: bool,
    /// Heartbeat timeout in seconds.
    pub heartbeat_timeout_seconds: Option<u32>,
}

/// Whether two task metadata hold the same values.
pub open spec fn same_task_metadata(a: TaskMetadata, b: TaskMetadata) -> bool {
    &&& a.kind@ == b.kind@
    &&& a.name@ == b.name@
    &&& opt_view(a.description) == opt_view(b.description)
    &&& a.version == b.version
    &&& strings_view(a.tags@) == strings_view(b.tags@)
    &&& a.timeout_seconds == b.timeout_seconds
    &&& a.cancellable == b.cancellable
    &&& a.heartbeat_timeout_seconds == b.heartbeat_timeout_seconds
}

/// Whether `m` is the metadata of a task registered by kind alone as
/// `kind`: named after it, cancellable, with nothing else set.
pub open spec fn is_simple_task_metadata(m: TaskMetadata, kind: Seq<char>) -> bool {
    &&& m.kind@ == kind
    &&& m.name@ == kind
    &&& m.description is None
    &&& m.version is None
    &&& m.tags@.len() == 0
    &&& m.timeout_seconds is None
    &&& m.cancellable
    &&& m.heartbeat_timeout_seconds is None
}

impl TaskMetadata {
    /// The metadata of a task registered by kind alone: named after its
    /// kind, cancellable, with nothing else set.
    pub fn simple(kind: &str) -> (r: Self)
        ensures
            r.kind@ == kind@,
            r.name@ == kind@,
            r.description is None,
            r.version is None,
            r.tags@.len() == 0,
            r.timeout_seconds is None,
            r.cancellable,
            r.heartbeat_timeout_seconds is None,
    {
        TaskMetadata {
            kind: String::from_str(kind),
            name: String::from_str(kind),
            description: None,
            version: None,
            tags: Vec::new(),
            timeout_seconds: None,
            cancellable: true,
            heartbeat_timeout_seconds: None,
        }
    }

    /// A copy of the metadata.
    pub fn copy(&self) -> (r: Self)
        ensures
            same_task_metadata(r, *self),
    {
        TaskMetadata {
            kind: self.kind.clone(),
            name: self.name.clone(),
            description: copy_opt_string(&self.description),
            version: self.version,
            tags: copy_strings(&self.tags),
            timeout_seconds: self.timeout_seconds,
            cancellable: self.cancellable,
            heartbeat_timeout_seconds: self.heartbeat_timeout_seconds,
        }
    }
}

/// A registered task: its metadata and the function that executes it.
pub struct RegisteredTask<F> {
    /// The task's metadata.
    pub metadata: TaskMetadata,
    /// The function that executes the task.
    pub execute_fn: F,
}

impl<F> RegisteredTask<F> {
    /// A registered task.
    pub fn new(metadata: TaskMetadata, execute_fn: F) -> (r: Self)
        ensures
            r.metadata == metadata,
            r.function() == execute_fn,
    {
        RegisteredTask { metadata, execute_fn }
    }

    /// The function that executes the task.
    pub closed spec fn function(&self) -> F {
        self.execute_fn
    }

    /// The function that executes the task.
    pub fn execute_fn(&self) -> (r: &F)
        ensures
            *r == self.function(),
    {
        &self.execute_fn
    }
}

/// The kinds of a list of registered tasks, in order.
pub open spec fn task_kinds<F>(tasks: Seq<RegisteredTask<F>>) -> Seq<Seq<char>> {
    tasks.map_values(|t: RegisteredTask<F>| t.metadata.kind@)
}

/// The message of a second registration of `kind`.
pub open spec fn duplicate_task_message(kind: Seq<char>) -> Seq<char> {
    "Task '"@ + kind + "' is already registered. Each task kind must be unique within a worker."@
}

/// The task kinds a worker can execute, each registered once.
pub struct TaskRegistry<F> {
    tasks: Vec<RegisteredTask<F>>,
}

impl<F> TaskRegistry<F> {
    /// The registered tasks, in registration order.
    pub closed spec fn tasks(&self) -> Seq<RegisteredTask<F>> {
        self.tasks@
    }

    /// The registered kinds, in registration order.
    pub open spec fn kinds(&self) -> Seq<Seq<char>> {
        task_kinds(self.tasks())
    }

    /// The registry's invariant: no kind is registered twice.
    pub open spec fn wf(&self) -> bool {
        self.kinds().no_duplicates()
    }

    /// An empty registry.
    pub fn new() -> (r: Self)
        ensures
            r.wf(),
            r.tasks() == Seq::<RegisteredTask<F>>::empty(),
    {
        let r = TaskRegistry { tasks: Vec::new() };
        assert(r.kinds() =~= Seq::<Seq<char>>::empty());
        r
    }

    fn find(&self, kind: &str) -> (r: Option<usize>)
        ensures
            match r {
                Some(i) => i < self.tasks().len() && self.kinds()[i as int] == kind@,
                None => !self.kinds().contains(kind@),
            },
    {
        let mut i: usize = 0;
        while i < self.tasks.len()
            invariant
                i <= self.tasks@.len(),
                forall|j: int| 0 <= j < i ==> self.kinds()[j] != kind@,
            decreases self.tasks@.len() - i,
        {
            if str_eq(self.tasks[i].metadata.kind.as_str(), kind) {
                return Some(i);
            }
            i = i + 1;
        }
        None
    }

    /// Register `task`; a kind can be registered once only.
    pub fn register_raw(&mut self, task: RegisteredTask<F>) -> (r: Result<(), FlovynError>)
        requires
            old(self).wf(),
        ensures
            final(self).wf(),
            match r {
                Ok(()) => !old(self).kinds().contains(task.metadata.kind@) && final(self).tasks()
                    == old(self).tasks().push(task),
                Err(e) => old(self).kinds().contains(task.metadata.kind@) && *final(self)
                    == *old(self) && e@ == FlovynErrorView::InvalidConfiguration(
                    duplicate_task_message(task.metadata.kind@),
                ),
            },
    {
        match self.find(task.metadata.kind.as_str()) {
            Some(_) => Err(
                FlovynError::InvalidConfiguration(
                    String::from_str("Task '").concat(task.metadata.kind.as_str()).concat(
                        "' is already registered. Each task kind must be unique within a worker.",
                    ),
                ),
            ),
            None => {
                let ghost k = task.metadata.kind@;
                self.tasks.push(task);
                assert(self.kinds() =~= old(self).kinds().push(k));
                Ok(())
            },
        }
    }

    /// Register a task by kind alone, with `execute_fn`.
    pub fn register_simple(&mut self, kind: &str, execute_fn: F) -> (r: Result<(), FlovynError>)
        requires
            old(self).wf(),
        ensures
            final(self).wf(),
            match r {
                Ok(()) => !old(self).kinds().contains(kind@) && final(self).kinds() == old(
                    self,
                ).kinds().push(kind@) && final(self).tasks().drop_last() == old(self).tasks()
                    && is_simple_task_metadata(final(self).tasks().last().metadata, kind@)
                    && final(self).tasks().last().function() == execute_fn,
                Err(e) => old(self).kinds().contains(kind@) && *final(self) == *old(self) && e@
                    == FlovynErrorView::InvalidConfiguration(duplicate_task_message(kind@)),
            },
    {
        let r = self.register_raw(RegisteredTask::new(TaskMetadata::simple(kind), execute_fn));
        proof {
            if r is Ok {
                assert(self.kinds() =~= old(self).kinds().push(kind@));
            }
        }
        r
    }

    /// The task registered under `kind`.
    pub fn get(&self, kind: &str) -> (r: Option<&RegisteredTask<F>>)
        ensures
            match r {
                Some(t) => self.kinds().contains(kind@) && t.metadata.kind@ == kind@ && self.tasks().contains(*t),
                None => !self.kinds().contains(kind@),
            },
    {
        match self.find(kind) {
            Some(i) => {
                assert(self.tasks()[i as int].metadata.kind@ == self.kinds()[i as int]);
                Some(&self.tasks[i])
            },
            None => None,
        }
    }

    /// Whether `kind` is registered.
    pub fn has(&self, kind: &str) -> (r: bool)
        ensures
            r == self.kinds().contains(kind@),
    {
        self.find(kind).is_some()
    }

    /// The registered kinds, in registration order.
    pub fn get_registered_kinds(&self) -> (r: Vec<String>)
        ensures
            strings_view(r@) == self.kinds(),
    {
        let mut r: Vec<String> = Vec::new();
        let mut i: usize = 0;
        while i < self.tasks.len()
            invariant
                i <= self.tasks@.len(),
                r@.len() == i,
                forall|j: int| 0 <= j < i ==> (#[trigger] r@[j])@ == self.kinds()[j],
            decreases self.tasks@.len() - i,
        {
            r.push(self.tasks[i].metadata.kind.clone());
            i = i + 1;
        }
        assert(strings_view(r@) =~= self.kinds());
        r
    }

    /// Whether any task is registered.
    pub fn has_registrations(&self) -> (r: bool)
        ensures
            r == (self.tasks().len() > 0),
    {
        !self.tasks.is_empty()
    }

    /// The metadata of every registered task, in registration order.
    pub fn get_all_metadata(&self) -> (r: Vec<TaskMetadata>)
        ensures
            r@.len() == self.tasks().len(),
            forall|i: int|
                0 <= i < r@.len() ==> same_task_metadata(#[trigger] r@[i], self.tasks()[i].metadata),
    {
        let mut r: Vec<TaskMetadata> = Vec::new();
        let mut i: usize = 0;
        while i < self.tasks.len()
            invariant
                i <= self.tasks@.len(),
                r@.len() == i,
                forall|j: int|
                    0 <= j < i ==> same_task_metadata(#[trigger] r@[j], self.tasks@[j].metadata),
            decreases self.tasks@.len() - i,
        {
            r.push(self.tasks[i].metadata.copy());
            i = i + 1;
        }
        r
    }

    /// The number of registered tasks.
    pub fn len(&self) -> (r: usize)
        ensures
            r == self.tasks().len(),
    {
        self.tasks.len()
    }

    /// Whether no task is registered.
    pub fn is_empty(&self) -> (r: bool)
        ensures
            r == (self.tasks().len() == 0),
    {
        self.tasks.is_empty()
    }
}

} // verus!
