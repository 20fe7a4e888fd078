//! The settings a client is built from, set fluently, and what building
//! them checks: a worker token is required, and the server's endpoint is
//! written from its host and port.

use crate::common::ids::{is_random_uuid, uuid_text, uuid_to_text, uuid_v4};
use crate::common::text::{decimal, opt_view, u64_to_decimal};
use crate::error::{FlovynError, FlovynErrorView};
use crate::task::registry::{duplicate_task_message, RegisteredTask, TaskRegistry};
use crate::worker::registry::{duplicate_workflow_message, RegisteredWorkflow, WorkflowRegistry};
use crate::common::time::secs_duration;
use core::time::Duration;
use vstd::prelude::*;

verus! {

/// The queue a worker polls unless told otherwise.
pub const DEFAULT_TASK_QUEUE: &'static str = "default";

/// Settings of a client, with the workflows and tasks its worker runs.
pub struct FlovynClientBuilder<W, T> {
    pub server_host: String,
    pub server_port: u16,
    pub tenant_id: u128,
    pub worker_id: String,
    pub queue: String,
    /// How long a poll for work waits.
    pub poll_timeout: Duration,
    pub space_id: Option<u128>,
    pub worker_name: Option<String>,
    pub worker_version: String,
    pub enable_auto_registration: bool,
    pub heartbeat_interval: Duration,
    pub workflow_registry: WorkflowRegistry<W>,
    pub task_registry: TaskRegistry<T>,
    /// The token the worker authenticates with.
    pub worker_token: Option<String>,
    /// Whether spans are reported to the server.
    pub enable_telemetry: bool,
    /// The first registration that was refused, reported by `build`.
    pub registration_error: Option<FlovynError>,
}

/// A client's settings once checked: the endpoint to connect to and the
/// token to authenticate with, beside the settings themselves.
pub struct ClientSettings<W, T> {
    pub endpoint: String,
    pub worker_token: String,
    pub builder: FlovynClientBuilder<W, T>,
}

/// The endpoint of a server at `host` and `port`.
pub open spec fn endpoint_text(host: Seq<char>, port: u16) -> Seq<char> {
    "http://"@ + host + ":"@ + decimal(port as nat)
}

/// An optional error taken by its view.
pub open spec fn opt_error_view(e: Option<FlovynError>) -> Option<FlovynErrorView> {
    match e {
        Some(e) => Some(e@),
        None => None,
    }
}

/// The error kept after a registration: the first refusal stands; a refused
/// registration with none before it leaves `refusal`.
pub open spec fn kept_refusal(
    before: Option<FlovynErrorView>,
    refused: bool,
    refusal: FlovynErrorView,
) -> Option<FlovynErrorView> {
    if before is None && refused {
        Some(refusal)
    } else {
        before
    }
}

/// A refused registration is never lost before `build`: a registration that
/// is refused leaves an error kept, and once one is kept, later
/// registrations, refused or not, keep that same error.
pub proof fn law_refusal_is_kept(
    before: Option<FlovynErrorView>,
    refused: bool,
    refusal: FlovynErrorView,
)
    ensures
        refused ==> kept_refusal(before, refused, refusal) is Some,
        before is Some ==> kept_refusal(before, refused, refusal) == before,
        !refused ==> kept_refusal(before, refused, refusal) == before,
{
}

/// The error of building without a worker token.
pub open spec fn missing_token_error() -> FlovynErrorView {
    FlovynErrorView::InvalidConfiguration("Authentication required. Use .worker_token(...)."@)
}

impl<W, T> FlovynClientBuilder<W, T> {
    /// Default settings: the server at `localhost:9090`, a fresh random
    /// tenant, a worker named `worker-<fresh random UUID>`, the default
    /// queue, a 60 s poll timeout, version `1.0.0`, automatic registration
    /// on, a heartbeat every 30 s, no token, telemetry off, nothing
    /// registered, no refused registration.
    pub fn new() -> (r: Self)
        ensures
            r.server_host@ == "localhost"@,
            r.server_port == 9090,
            is_random_uuid(r.tenant_id),
            exists|id: u128| is_random_uuid(id) && r.worker_id@ == "worker-"@ + uuid_text(id),
            r.queue@ == DEFAULT_TASK_QUEUE@,
            r.space_id is None,
            r.worker_name is None,
            r.poll_timeout == secs_duration(60),
            r.worker_version@ == "1.0.0"@,
            r.enable_auto_registration,
            r.heartbeat_interval == secs_duration(30),
            r.workflow_registry.wf(),
            r.workflow_registry.kinds().len() == 0,
            r.task_registry.wf(),
            r.task_registry.kinds().len() == 0,
            r.worker_token is None,
            !r.enable_telemetry,
            r.registration_error is None,
    {
        let worker_uuid = uuid_v4();
        let worker_id = String::from_str("worker-").concat(uuid_to_text(worker_uuid).as_str());
        let r = FlovynClientBuilder {
            server_host: String::from_str("localhost"),
            server_port: 9090,
            tenant_id: uuid_v4(),
            worker_id,
            queue: String::from_str(DEFAULT_TASK_QUEUE),
            poll_timeout: Duration::from_secs(60),
            space_id: None,
            worker_name: None,
            worker_version: String::from_str("1.0.0"),
            enable_auto_registration: true,
            heartbeat_interval: Duration::from_secs(30),
            workflow_registry: WorkflowRegistry::new(),
            task_registry: TaskRegistry::new(),
            worker_token: None,
            enable_telemetry: false,
            registration_error: None,
        };
        assert(r.workflow_registry.kinds() =~= Seq::<Seq<char>>::empty());
        assert(r.task_registry.kinds() =~= Seq::<Seq<char>>::empty());
        r
    }

    /// Set the server's host and port.
    pub fn server_address(self, host: &str, port: u16) -> (r: Self)
        ensures
            r.server_host@ == host@,
            r == (FlovynClientBuilder { server_host: r.server_host, server_port: port, ..self }),
    {
        FlovynClientBuilder { server_host: String::from_str(host), server_port: port, ..self }
    }

    /// Set the tenant ID.
    pub fn tenant_id(self, id: u128) -> (r: Self)
        ensures
            r == (FlovynClientBuilder { tenant_id: id, ..self }),
    {
        FlovynClientBuilder { tenant_id: id, ..self }
    }

    /// Set the worker ID.
    pub fn worker_id(self, id: &str) -> (r: Self)
        ensures
            r.worker_id@ == id@,
            r == (FlovynClientBuilder { worker_id: r.worker_id, ..self }),
    {
        FlovynClientBuilder { worker_id: String::from_str(id), ..self }
    }

    /// Set the queue the worker polls.
    pub fn queue(self, queue: &str) -> (r: Self)
        ensures
            r.queue@ == queue@,
            r == (FlovynClientBuilder { queue: r.queue, ..self }),
    {
        FlovynClientBuilder { queue: String::from_str(queue), ..self }
    }

    /// Set how long a poll for work waits.
    pub fn poll_timeout(self, timeout: Duration) -> (r: Self)
        ensures
            r == (FlovynClientBuilder { poll_timeout: timeout, ..self }),
    {
        FlovynClientBuilder { poll_timeout: timeout, ..self }
    }

    /// Set the space ID.
    pub fn space_id(self, id: Option<u128>) -> (r: Self)
        ensures
            r == (FlovynClientBuilder { space_id: id, ..self }),
    {
        FlovynClientBuilder { space_id: id, ..self }
    }

    /// Set the worker's name.
    pub fn worker_name(self, name: &str) -> (r: Self)
        ensures
            opt_view(r.worker_name) == Some(name@),
            r == (FlovynClientBuilder { worker_name: r.worker_name, ..self }),
    {
        FlovynClientBuilder { worker_name: Some(String::from_str(name)), ..self }
    }

    /// Set the worker's version.
    pub fn worker_version(self, version: &str) -> (r: Self)
        ensures
            r.worker_version@ == version@,
            r == (FlovynClientBuilder { worker_version: r.worker_version, ..self }),
    {
        FlovynClientBuilder { worker_version: String::from_str(version), ..self }
    }

    /// Turn automatic registration on or off.
    pub fn enable_auto_registration(self, enable: bool) -> (r: Self)
        ensures
            r == (FlovynClientBuilder { enable_auto_registration: enable, ..self }),
    {
        FlovynClientBuilder { enable_auto_registration: enable, ..self }
    }

    /// Set how often the worker sends heartbeats.
    pub fn heartbeat_interval(self, interval: Duration) -> (r: Self)
        ensures
            r == (FlovynClientBuilder { heartbeat_interval: interval, ..self }),
    {
        FlovynClientBuilder { heartbeat_interval: interval, ..self }
    }

    /// Set the worker token; any text is accepted.
    pub fn worker_token(self, token: &str) -> (r: Self)
        ensures
            opt_view(r.worker_token) == Some(token@),
            r == (FlovynClientBuilder { worker_token: r.worker_token, ..self }),
    {
        FlovynClientBuilder { worker_token: Some(String::from_str(token)), ..self }
    }

    /// Turn span reporting on or off.
    pub fn enable_telemetry(self, enable: bool) -> (r: Self)
        ensures
            r == (FlovynClientBuilder { enable_telemetry: enable, ..self }),
    {
        FlovynClientBuilder { enable_telemetry: enable, ..self }
    }

    /// Register a workflow. A kind registered already is left as it was,
    /// and the refusal is kept for `build` to report, unless an earlier one
    /// is kept already.
    pub fn register_workflow(self, workflow: RegisteredWorkflow<W>) -> (r: Self)
        requires
            self.workflow_registry.wf(),
        ensures
            r.workflow_registry.wf(),
            r.workflow_registry.kinds() == if self.workflow_registry.kinds().contains(
                workflow.metadata.kind@,
            ) {
                self.workflow_registry.kinds()
            } else {
                self.workflow_registry.kinds().push(workflow.metadata.kind@)
            },
            opt_error_view(r.registration_error) == kept_refusal(
                opt_error_view(self.registration_error),
                self.workflow_registry.kinds().contains(workflow.metadata.kind@),
                FlovynErrorView::InvalidConfiguration(
                    duplicate_workflow_message(workflow.metadata.kind@),
                ),
            ),
            r == (FlovynClientBuilder {
                workflow_registry: r.workflow_registry,
                registration_error: r.registration_error,
                ..self
            }),
    {
        let mut b = self;
        let ghost k = workflow.metadata.kind@;
        let outcome = b.workflow_registry.register_raw(workflow);
        proof {
            if !self.workflow_registry.kinds().contains(k) {
                assert(b.workflow_registry.kinds() =~= self.workflow_registry.kinds().push(k));
            }
        }
        match outcome {
            Err(e) => {
                if b.registration_error.is_none() {
                    b.registration_error = Some(e);
                }
            },
            Ok(()) => {},
        }
        b
    }

    /// Register a task. A kind registered already is left as it was, and
    /// the refusal is kept for `build` to report, unless an earlier one is
    /// kept already.
    pub fn register_task(self, task: RegisteredTask<T>) -> (r: Self)
        requires
            self.task_registry.wf(),
        ensures
            r.task_registry.wf(),
            r.task_registry.kinds() == if self.task_registry.kinds().contains(task.metadata.kind@) {
                self.task_registry.kinds()
            } else {
                self.task_registry.kinds().push(task.metadata.kind@)
            },
            opt_error_view(r.registration_error) == kept_refusal(
                opt_error_view(self.registration_error),
                self.task_registry.kinds().contains(task.metadata.kind@),
                FlovynErrorView::InvalidConfiguration(duplicate_task_message(task.metadata.kind@)),
            ),
            r == (FlovynClientBuilder {
                task_registry: r.task_registry,
                registration_error: r.registration_error,
                ..self
            }),
    {
        let mut b = self;
        let ghost k = task.metadata.kind@;
        let outcome = b.task_registry.register_raw(task);
        proof {
            if !self.task_registry.kinds().contains(k) {
                assert(b.task_registry.kinds() =~= self.task_registry.kinds().push(k));
            }
        }
        match outcome {
            Err(e) => {
                if b.registration_error.is_none() {
                    b.registration_error = Some(e);
                }
            },
            Ok(()) => {},
        }
        b
    }

    /// Check the settings: a worker token is required, and a refused
    /// registration is reported; the endpoint is `http://<host>:<port>`.
    pub fn build(self) -> (r: Result<ClientSettings<W, T>, FlovynError>)
        ensures
            match r {
                Ok(s) => self.worker_token matches Some(t) && s.worker_token@ == t@
                    && self.registration_error is None
                    && s.endpoint@ == endpoint_text(self.server_host@, self.server_port)
                    && s.builder == self,
                Err(e) => if self.worker_token is None {
                    e@ == missing_token_error()
                } else {
                    opt_error_view(self.registration_error) == Some(e@)
                },
            },
    {
        let token = match &self.worker_token {
            None => {
                return Err(
                    FlovynError::InvalidConfiguration(
                        String::from_str("Authentication required. Use .worker_token(...)."),
                    ),
                );
            },
            Some(t) => t.clone(),
        };
        let mut b = self;
        match b.registration_error.take() {
            Some(e) => Err(e),
            None => {
                let endpoint = String::from_str("http://").concat(b.server_host.as_str()).concat(
                    ":",
                ).concat(u64_to_decimal(b.server_port as u64).as_str());
                Ok(ClientSettings { endpoint, worker_token: token, builder: b })
            },
        }
    }
}

impl<W, T> Default for FlovynClientBuilder<W, T> {
    fn default() -> (r: Self)
        ensures
            r.server_host@ == "localhost"@,
            r.server_port == 9090,
            is_random_uuid(r.tenant_id),
            r.queue@ == DEFAULT_TASK_QUEUE@,
            r.poll_timeout == secs_duration(60),
            r.heartbeat_interval == secs_duration(30),
            r.enable_auto_registration,
            r.workflow_registry.wf(),
            r.task_registry.wf(),
            r.worker_token is None,
            !r.enable_telemetry,
            r.registration_error is None,
    {
        Self::new()
    }
}

} // verus!
