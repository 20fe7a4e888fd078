//! Registering a worker's workflows and tasks with the server: what to
//! send, and what the worker keeps of the server's reply.

use crate::common::text::{copy_opt_string, opt_view, strings_view};
use crate::task::registry::{TaskMetadata, TaskRegistry, same_task_metadata};
use crate::worker::lifecycle::{RegistrationInfo, TaskConflict, WorkflowConflict};
use crate::worker::registry::{WorkflowMetadata, WorkflowRegistry, same_workflow_metadata};
use std::time::SystemTime;
use vstd::prelude::*;

verus! {

/// What a worker sends to register itself: its name and the metadata of
/// every workflow and task it can run, with their kinds.
pub struct RegistrationRequest {
    pub worker_name: String,
    pub workflows: Vec<WorkflowMetadata>,
    pub tasks: Vec<TaskMetadata>,
    pub workflow_kinds: Vec<String>,
    pub task_kinds: Vec<String>,
}

/// The server's reply to a registration.
pub struct RegistrationReply {
    /// The ID the server gave the worker.
    pub worker_id: u128,
    /// Whether the registration went through.
    pub success: bool,
    pub workflow_conflicts: Vec<WorkflowConflict>,
    pub task_conflicts: Vec<TaskConflict>,
}

/// The request to send, if any: none when automatic registration is off or
/// nothing is registered. The worker is named `worker_name`, or after its
/// ID when it has no name.
pub fn plan_registration<W, T>(
    enable_auto_registration: bool,
    workflows: &WorkflowRegistry<W>,
    tasks: &TaskRegistry<T>,
    worker_name: &Option<String>,
    worker_id: &str,
) -> (r: Option<RegistrationRequest>)
    ensures
        r is None <==> (!enable_auto_registration || (workflows.workflows().len() == 0
            && tasks.tasks().len() == 0)),
        r matches Some(req) ==> {
            &&& req.worker_name@ == match opt_view(*worker_name) {
                Some(n) => n,
                None => worker_id@,
            }
            &&& strings_view(req.workflow_kinds@) == workflows.kinds()
            &&& strings_view(req.task_kinds@) == tasks.kinds()
            &&& req.workflows@.len() == workflows.workflows().len()
            &&& forall|i: int|
                0 <= i < req.workflows@.len() ==> same_workflow_metadata(
                    #[trigger] req.workflows@[i],
                    workflows.workflows()[i].metadata,
                )
            &&& req.tasks@.len() == tasks.tasks().len()
            &&& forall|i: int|
                0 <= i < req.tasks@.len() ==> same_task_metadata(
                    #[trigger] req.tasks@[i],
                    tasks.tasks()[i].metadata,
                )
        },
{
    if !enable_auto_registration {
        return None;
    }
    if !workflows.has_registrations() && !tasks.has_registrations() {
        return None;
    }
    let name = match copy_opt_string(worker_name) {
        Some(n) => n,
        None => String::from_str(worker_id),
    };
    Some(
        RegistrationRequest {
            worker_name: name,
            workflows: workflows.get_all_metadata(),
            tasks: tasks.get_all_metadata(),
            workflow_kinds: workflows.get_registered_kinds(),
            task_kinds: tasks.get_registered_kinds(),
        },
    )
}

/// What the worker keeps of the reply to `request`, received at
/// `registered_at`, and the server's ID for it when the registration went
/// through.
pub fn registration_outcome(
    request: RegistrationRequest,
    reply: RegistrationReply,
    registered_at: SystemTime,
) -> (r: (RegistrationInfo, Option<u128>))
    ensures
        r.0.worker_id == reply.worker_id,
        r.0.success == reply.success,
        r.0.registered_at == registered_at,
        r.0.workflow_kinds == request.workflow_kinds,
        r.0.task_kinds == request.task_kinds,
        r.0.workflow_conflicts == reply.workflow_conflicts,
        r.0.task_conflicts == reply.task_conflicts,
        r.1 == if reply.success {
            Some(reply.worker_id)
        } else {
            None
        },
{
    let server_worker_id = if reply.success {
        Some(reply.worker_id)
    } else {
        None
    };
    (
        RegistrationInfo {
            worker_id: reply.worker_id,
            success: reply.success,
            registered_at,
            workflow_kinds: request.workflow_kinds,
            task_kinds: request.task_kinds,
            workflow_conflicts: reply.workflow_conflicts,
            task_conflicts: reply.task_conflicts,
        },
        server_worker_id,
    )
}

} // verus!
