//! Pausing and resuming a worker: only a running worker pauses and only a
//! paused one resumes, each with the consent of every lifecycle hook; a
//! refused request leaves the status as it was.

use vstd::prelude::*;
use std::time::SystemTime;
use crate::worker::lifecycle::{WorkerControlError, WorkerStatus};

verus! {

/// A control error as mathematical values.
pub enum ControlErrorView {
    NotRunning,
    ShuttingDown,
    InvalidState(Seq<char>),
    Timeout,
    ServerError(Seq<char>),
    RejectedByHook(Seq<char>),
}

/// A control error by value.
pub open spec fn control_error_view(e: WorkerControlError) -> ControlErrorView {
    match e {
        WorkerControlError::NotRunning => ControlErrorView::NotRunning,
        WorkerControlError::ShuttingDown => ControlErrorView::ShuttingDown,
        WorkerControlError::InvalidState(s) => ControlErrorView::InvalidState(s@),
        WorkerControlError::Timeout => ControlErrorView::Timeout,
        WorkerControlError::ServerError(s) => ControlErrorView::ServerError(s@),
        WorkerControlError::RejectedByHook(s) => ControlErrorView::RejectedByHook(s@),
    }
}

/// The name of a status's kind.
pub open spec fn status_name(s: WorkerStatus) -> Seq<char> {
    match s {
        WorkerStatus::Initializing => "Initializing"@,
        WorkerStatus::Registering => "Registering"@,
        WorkerStatus::Running { .. } => "Running"@,
        WorkerStatus::Paused { .. } => "Paused"@,
        WorkerStatus::Reconnecting { .. } => "Reconnecting"@,
        WorkerStatus::ShuttingDown { .. } => "ShuttingDown"@,
        WorkerStatus::Stopped { .. } => "Stopped"@,
    }
}

/// The name of a status's kind.
pub fn status_name_of(s: &WorkerStatus) -> (r: String)
    ensures
        r@ == status_name(*s),
{
    match s {
        WorkerStatus::Initializing => String::from_str("Initializing"),
        WorkerStatus::Registering => String::from_str("Registering"),
        WorkerStatus::Running { .. } => String::from_str("Running"),
        WorkerStatus::Paused { .. } => String::from_str("Paused"),
        WorkerStatus::Reconnecting { .. } => String::from_str("Reconnecting"),
        WorkerStatus::ShuttingDown { .. } => String::from_str("ShuttingDown"),
        WorkerStatus::Stopped { .. } => String::from_str("Stopped"),
    }
}

/// Why a worker in `s` cannot move on to `wanted`, if it cannot: a worker
/// shutting down refuses everything; one that has not started or has
/// stopped is not running; any other status but `wanted` is the wrong state.
pub open spec fn control_refusal(s: WorkerStatus, wanted: Seq<char>) -> Option<ControlErrorView> {
    if status_name(s) == wanted {
        None
    } else {
        match s {
            WorkerStatus::ShuttingDown { .. } => Some(ControlErrorView::ShuttingDown),
            WorkerStatus::Initializing => Some(ControlErrorView::NotRunning),
            WorkerStatus::Registering => Some(ControlErrorView::NotRunning),
            WorkerStatus::Stopped { .. } => Some(ControlErrorView::NotRunning),
            _ => Some(ControlErrorView::InvalidState(status_name(s))),
        }
    }
}

fn refusal(s: &WorkerStatus, wanted: &str) -> (r: Option<WorkerControlError>)
    ensures
        match control_refusal(*s, wanted@) {
            None => r is None,
            Some(v) => r matches Some(e) && control_error_view(e) == v,
        },
{
    let name = status_name_of(s);
    if name == String::from_str(wanted) {
        return None;
    }
    match s {
        WorkerStatus::ShuttingDown { .. } => Some(WorkerControlError::ShuttingDown),
        WorkerStatus::Initializing => Some(WorkerControlError::NotRunning),
        WorkerStatus::Registering => Some(WorkerControlError::NotRunning),
        WorkerStatus::Stopped { .. } => Some(WorkerControlError::NotRunning),
        _ => Some(WorkerControlError::InvalidState(name)),
    }
}

/// Whether a worker in `status` may be asked to pause: only a running one.
/// The hooks are asked only when it may.
pub fn check_pause(status: &WorkerStatus) -> (r: Result<(), WorkerControlError>)
    ensures
        match control_refusal(*status, "Running"@) {
            None => r is Ok,
            Some(v) => r matches Err(e) && control_error_view(e) == v,
        },
{
    match refusal(status, "Running") {
        None => Ok(()),
        Some(e) => Err(e),
    }
}

/// Pause a worker for `reason`, given whether every lifecycle hook
/// consented: a running worker with the hooks' consent becomes paused; a
/// worker that is not running, or whose pause a hook refused, keeps its
/// status and gets the error.
pub fn pause_step(status: &mut WorkerStatus, consent: bool, reason: &str) -> (r: Result<
    (),
    WorkerControlError,
>)
    ensures
        match control_refusal(*old(status), "Running"@) {
            Some(v) => r matches Err(e) && control_error_view(e) == v && *final(status) == *old(
                status,
            ),
            None => if consent {
                r is Ok && (*final(status) matches WorkerStatus::Paused { reason: p } && p@ == reason@)
            } else {
                r matches Err(e) && control_error_view(e) == ControlErrorView::RejectedByHook(
                    "pause"@,
                ) && *final(status) == *old(status)
            },
        },
{
    match refusal(status, "Running") {
        Some(e) => Err(e),
        None => {
            if consent {
                *status = WorkerStatus::Paused { reason: String::from_str(reason) };
                Ok(())
            } else {
                Err(WorkerControlError::RejectedByHook(String::from_str("pause")))
            }
        },
    }
}

/// Whether a worker in `status` may be asked to resume: only a paused one.
/// The hooks are asked only when it may.
pub fn check_resume(status: &WorkerStatus) -> (r: Result<(), WorkerControlError>)
    ensures
        match control_refusal(*status, "Paused"@) {
            None => r is Ok,
            Some(v) => r matches Err(e) && control_error_view(e) == v,
        },
{
    match refusal(status, "Paused") {
        None => Ok(()),
        Some(e) => Err(e),
    }
}

/// Resume a worker, given whether every lifecycle hook consented: a paused
/// worker with the hooks' consent runs again, under `server_worker_id`
/// from `now`; a worker that is not paused, or whose resumption a hook
/// refused, keeps its status and gets the error.
pub fn resume_step(
    status: &mut WorkerStatus,
    consent: bool,
    server_worker_id: Option<u128>,
    now: SystemTime,
) -> (r: Result<(), WorkerControlError>)
    ensures
        match control_refusal(*old(status), "Paused"@) {
            Some(v) => r matches Err(e) && control_error_view(e) == v && *final(status) == *old(
                status,
            ),
            None => if consent {
                r is Ok && *final(status) == (WorkerStatus::Running {
                    server_worker_id,
                    started_at: now,
                })
            } else {
                r matches Err(e) && control_error_view(e) == ControlErrorView::RejectedByHook(
                    "resume"@,
                ) && *final(status) == *old(status)
            },
        },
{
    match refusal(status, "Paused") {
        Some(e) => Err(e),
        None => {
            if consent {
                *status = WorkerStatus::Running { server_worker_id, started_at: now };
                Ok(())
            } else {
                Err(WorkerControlError::RejectedByHook(String::from_str("resume")))
            }
        },
    }
}

/// Only a running worker may pause and only a paused one may resume: the
/// status check lets exactly those through and refuses every other status.
pub proof fn law_only_running_pauses_only_paused_resumes(s: WorkerStatus)
    ensures
        control_refusal(s, "Running"@) is None <==> s is Running,
        control_refusal(s, "Paused"@) is None <==> s is Paused,
{
    reveal_strlit("Running");
    reveal_strlit("Paused");
    reveal_strlit("Initializing");
    reveal_strlit("Registering");
    reveal_strlit("Reconnecting");
    reveal_strlit("ShuttingDown");
    reveal_strlit("Stopped");
    let n = status_name(s);
    assert(n == "Running"@ ==> s is Running) by {
        if !(s is Running) {
            assert(n.len() != 7 || n[0] != "Running"@[0] || n[1] != "Running"@[1]);
        }
    }
    assert(n == "Paused"@ ==> s is Paused) by {
        if !(s is Paused) {
            assert(n.len() != 6 || n[0] != "Paused"@[0] || n[1] != "Paused"@[1]);
        }
    }
}

} // verus!
