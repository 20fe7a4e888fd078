//! The registry of the workflow kinds a worker can execute.

use vstd::prelude::*;
use crate::common::text::{copy_opt_string, copy_strings, opt_view, str_eq, strings_view};
use crate::common::version::SemanticVersion;
use crate::error::{FlovynError, FlovynErrorView};

verus! {

/// What a worker tells the server about a workflow kind.
#[derive(Debug, Clone)]
pub struct WorkflowMetadata {
    /// The unique workflow kind.
    pub kind: String,
    /// Human-readable name.
    pub name: String,
    /// Description of the workflow.
    pub description: Option<String>,
    /// Version of the workflow.
    pub version: Option<SemanticVersion>,
    /// Tags for categorization.
    pub tags: Vec<String>,
    /// Whether the workflow can be cancelled.
    pub cancellable: bool,
    /// Timeout in seconds.
    pub timeout_seconds: Option<u64>,
    /// Hash of the workflow's content, for version validation.
    pub content_hash: Option<String>,
    /// JSON Schema of the input (JSON text).
    pub input_schema: Option<String>,
    /// JSON Schema of the output (JSON text).
    pub output_schema: Option<String>,
}

/// Whether two workflow metadata hold the same values.
pub open spec fn same_workflow_metadata(a: WorkflowMetadata, b: WorkflowMetadata) -> bool {
    &&& a.kind@ == b.kind@
    &&& a.name@ == b.name@
    &&& opt_view(a.description) == opt_view(b.description)
    &&& a.version == b.version
    &&& strings_view(a.tags@) == strings_view(b.tags@)
    &&& a.cancellable == b.cancellable
    &&& a.timeout_seconds == b.timeout_seconds
    &&& opt_view(a.content_hash) == opt_view(b.content_hash)
    &&& opt_view(a.input_schema) == opt_view(b.input_schema)
    &&& opt_view(a.output_schema) == opt_view(b.output_schema)
}

/// Whether `m` is the metadata of a workflow registered by kind alone as
/// `kind`: named after it, cancellable, with nothing else set.
pub open spec fn is_simple_workflow_metadata(m: WorkflowMetadata, kind: Seq<char>) -> bool {
    &&& m.kind@ == kind
    &&& m.name@ == kind
    &&& m.description is None
    &&& m.version is None
    &&& m.tags@.len() == 0
    &&& m.cancellable
    &&& m.timeout_seconds is None
    &&& m.content_hash is None
    &&& m.input_schema is None
    &&& m.output_schema is None
}

impl WorkflowMetadata {
    /// The metadata of a workflow registered by kind alone: named after its
    /// kind, cancellable, with nothing else set.
    pub fn simple(kind: &str) -> (r: Self)
        ensures
            r.kind@ == kind@,
            r.name@ == kind@,
            r.description is None,
            r.version is None,
            r.tags@.len() == 0,
            r.cancellable,
            r.timeout_seconds is None,
            r.content_hash is None,
            r.input_schema is None,
            r.output_schema is None,
    {
        WorkflowMetadata {
            kind: String::from_str(kind),
            name: String::from_str(kind),
            description: None,
            version: None,
            tags: Vec::new(),
            cancellable: true,
            timeout_seconds: None,
            content_hash: None,
            input_schema: None,
            output_schema: None,
        }
    }

    /// A copy of the metadata.
    pub fn copy(&self) -> (r: Self)
        ensures
            same_workflow_metadata(r, *self),
    {
        WorkflowMetadata {
            kind: self.kind.clone(),
            name: self.name.clone(),
            description: copy_opt_string(&self.description),
            version: self.version,
            tags: copy_strings(&self.tags),
            cancellable: self.cancellable,
            timeout_seconds: self.timeout_seconds,
            content_hash: copy_opt_string(&self.content_hash),
            input_schema: copy_opt_string(&self.input_schema),
            output_schema: copy_opt_string(&self.output_schema),
        }
    }
}

/// A registered workflow: its metadata and the function that executes it.
pub struct RegisteredWorkflow<F> {
    /// The workflow's metadata.
    pub metadata: WorkflowMetadata,
    /// The function that executes the workflow.
    pub execute_fn: F,
}

impl<F> RegisteredWorkflow<F> {
    /// A registered workflow.
    pub fn new(metadata: WorkflowMetadata, execute_fn: F) -> (r: Self)
        ensures
            r.metadata == metadata,
            r.function() == execute_fn,
    {
        RegisteredWorkflow { metadata, execute_fn }
    }

    /// The function that executes the workflow.
    pub closed spec fn function(&self) -> F {
        self.execute_fn
    }

    /// The function that executes the workflow.
    pub fn execute_fn(&self) -> (r: &F)
        ensures
            *r == self.function(),
    {
        &self.execute_fn
    }
}

/// The kinds of a list of registered workflows, in order.
pub open spec fn workflow_kinds<F>(workflows: Seq<RegisteredWorkflow<F>>) -> Seq<Seq<char>> {
    workflows.map_values(|t: RegisteredWorkflow<F>| t.metadata.kind@)
}

/// The message of a second registration of `kind`.
pub open spec fn duplicate_workflow_message(kind: Seq<char>) -> Seq<char> {
    "Workflow '"@ + kind + "' is already registered. Each workflow kind must be unique within a worker."@
}

/// The workflow kinds a worker can execute, each registered once.
pub struct WorkflowRegistry<F> {
    workflows: Vec<RegisteredWorkflow<F>>,
}

impl<F> WorkflowRegistry<F> {
    /// The registered workflows, in registration order.
    pub closed spec fn workflows(&self) -> Seq<RegisteredWorkflow<F>> {
        self.workflows@
    }

    /// The registered kinds, in registration order.
    pub open spec fn kinds(&self) -> Seq<Seq<char>> {
        workflow_kinds(self.workflows())
    }

    /// The registry's invariant: no kind is registered twice.
    pub open spec fn wf(&self) -> bool {
        self.kinds().no_duplicates()
    }

    /// An empty registry.
    pub fn new() -> (r: Self)
        ensures
            r.wf(),
            r.workflows() == Seq::<RegisteredWorkflow<F>>::empty(),
    {
        let r = WorkflowRegistry { workflows: Vec::new() };
        assert(r.kinds() =~= Seq::<Seq<char>>::empty());
        r
    }

    fn find(&self, kind: &str) -> (r: Option<usize>)
        ensures
            match r {
                Some(i) => i < self.workflows().len() && self.kinds()[i as int] == kind@,
                None => !self.kinds().contains(kind@),
            },
    {
        let mut i: usize = 0;
        while i < self.workflows.len()
            invariant
                i <= self.workflows@.len(),
                forall|j: int| 0 <= j < i ==> self.kinds()[j] != kind@,
            decreases self.workflows@.len() - i,
        {
            if str_eq(self.workflows[i].metadata.kind.as_str(), kind) {
                return Some(i);
            }
            i = i + 1;
        }
        None
    }

    /// Register `workflow`; a kind can be registered once only.
    pub fn register_raw(&mut self, workflow: RegisteredWorkflow<F>) -> (r: Result<(), FlovynError>)
        requires
            old(self).wf(),
        ensures
            final(self).wf(),
            match r {
                Ok(()) => !old(self).kinds().contains(workflow.metadata.kind@) && final(self).workflows()
                    == old(self).workflows().push(workflow),
                Err(e) => old(self).kinds().contains(workflow.metadata.kind@) && *final(self)
                    == *old(self) && e@ == FlovynErrorView::InvalidConfiguration(
                    duplicate_workflow_message(workflow.metadata.kind@),
                ),
            },
    {
        match self.find(workflow.metadata.kind.as_str()) {
            Some(_) => Err(
                FlovynError::InvalidConfiguration(
                    String::from_str("Workflow '").concat(workflow.metadata.kind.as_str()).concat(
                        "' is already registered. Each workflow kind must be unique within a worker.",
                    ),
                ),
            ),
            None => {
                let ghost k = workflow.metadata.kind@;
                self.workflows.push(workflow);
                assert(self.kinds() =~= old(self).kinds().push(k));
                Ok(())
            },
        }
    }

    /// Register a workflow by kind alone, with `execute_fn`.
    pub fn register_simple(&mut self, kind: &str, execute_fn: F) -> (r: Result<(), FlovynError>)
        requires
            old(self).wf(),
        ensures
            final(self).wf(),
            match r {
                Ok(()) => !old(self).kinds().contains(kind@) && final(self).kinds() == old(
                    self,
                ).kinds().push(kind@) && final(self).workflows().drop_last() == old(self).workflows()
                    && is_simple_workflow_metadata(final(self).workflows().last().metadata, kind@)
                    && final(self).workflows().last().function() == execute_fn,
                Err(e) => old(self).kinds().contains(kind@) && *final(self) == *old(self) && e@
                    == FlovynErrorView::InvalidConfiguration(duplicate_workflow_message(kind@)),
            },
    {
        let r = self.register_raw(RegisteredWorkflow::new(WorkflowMetadata::simple(kind), execute_fn));
        proof {
            if r is Ok {
                assert(self.kinds() =~= old(self).kinds().push(kind@));
            }
        }
        r
    }

    /// The workflow registered under `kind`.
    pub fn get(&self, kind: &str) -> (r: Option<&RegisteredWorkflow<F>>)
        ensures
            match r {
                Some(t) => self.kinds().contains(kind@) && t.metadata.kind@ == kind@ && self.workflows().contains(*t),
                None => !self.kinds().contains(kind@),
            },
    {
        match self.find(kind) {
            Some(i) => {
                assert(self.workflows()[i as int].metadata.kind@ == self.kinds()[i as int]);
                Some(&self.workflows[i])
            },
            None => None,
        }
    }

    /// Whether `kind` is registered.
    pub fn has(&self, kind: &str) -> (r: bool)
        ensures
            r == self.kinds().contains(kind@),
    {
        self.find(kind).is_some()
    }

    /// The registered kinds, in registration order.
    pub fn get_registered_kinds(&self) -> (r: Vec<String>)
        ensures
            strings_view(r@) == self.kinds(),
    {
        let mut r: Vec<String> = Vec::new();
        let mut i: usize = 0;
        while i < self.workflows.len()
            invariant
                i <= self.workflows@.len(),
                r@.len() == i,
                forall|j: int| 0 <= j < i ==> (#[trigger] r@[j])@ == self.kinds()[j],
            decreases self.workflows@.len() - i,
        {
            r.push(self.workflows[i].metadata.kind.clone());
            i = i + 1;
        }
        assert(strings_view(r@) =~= self.kinds());
        r
    }

    /// Whether any workflow is registered.
    pub fn has_registrations(&self) -> (r: bool)
        ensures
            r == (self.workflows().len() > 0),
    {
        !self.workflows.is_empty()
    }

    /// The metadata of every registered workflow, in registration order.
    pub fn get_all_metadata(&self) -> (r: Vec<WorkflowMetadata>)
        ensures
            r@.len() == self.workflows().len(),
            forall|i: int|
                0 <= i < r@.len() ==> same_workflow_metadata(#[trigger] r@[i], self.workflows()[i].metadata),
    {
        let mut r: Vec<WorkflowMetadata> = Vec::new();
        let mut i: usize = 0;
        while i < self.workflows.len()
            invariant
                i <= self.workflows@.len(),
                r@.len() == i,
                forall|j: int|
                    0 <= j < i ==> same_workflow_metadata(#[trigger] r@[j], self.workflows@[j].metadata),
            decreases self.workflows@.len() - i,
        {
            r.push(self.workflows[i].metadata.copy());
            i = i + 1;
        }
        r
    }

    /// The number of registered workflows.
    pub fn len(&self) -> (r: usize)
        ensures
            r == self.workflows().len(),
    {
        self.workflows.len()
    }

    /// Whether no workflow is registered.
    pub fn is_empty(&self) -> (r: bool)
        ensures
            r == (self.workflows().len() == 0),
    {
        self.workflows.is_empty()
    }
}

} // verus!
