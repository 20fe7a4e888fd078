//! What starting a client decides: a client starts once, and it runs a
//! workflow worker only when workflows are registered and a task worker
//! only when tasks are.

use vstd::prelude::*;
use crate::error::{FlovynError, FlovynErrorView};
use crate::task::registry::TaskRegistry;
use crate::worker::registry::WorkflowRegistry;

verus! {

/// The workers a starting client runs.
#[derive(PartialEq, Eq, Structural, Debug, Clone, Copy)]
pub struct StartPlan {
    pub start_workflow_worker: bool,
    pub start_task_worker: bool,
}

/// The error of starting a client that is running already.
pub open spec fn client_running_error() -> FlovynErrorView {
    FlovynErrorView::Other("Client already running"@)
}

/// Decide how a client starts: refused when it is running already;
/// otherwise a workflow worker when a workflow is registered and a task
/// worker when a task is.
pub fn plan_client_start<W, T>(
    already_running: bool,
    workflows: &WorkflowRegistry<W>,
    tasks: &TaskRegistry<T>,
) -> (r: Result<StartPlan, FlovynError>)
    ensures
        match r {
            Ok(p) => !already_running && p.start_workflow_worker == (workflows.workflows().len() > 0)
                && p.start_task_worker == (tasks.tasks().len() > 0),
            Err(e) => already_running && e@ == client_running_error(),
        },
{
    if already_running {
        return Err(FlovynError::Other(String::from_str("Client already running")));
    }
    Ok(
        StartPlan {
            start_workflow_worker: workflows.has_registrations(),
            start_task_worker: tasks.has_registrations(),
        },
    )
}

} // verus!
