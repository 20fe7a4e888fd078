//! Options and results of starting a workflow from a client.

use vstd::prelude::*;
use core::time::Duration;
use std::collections::HashMap;

verus! {

/// The result of starting a workflow.
#[derive(Debug, Clone)]
pub struct StartWorkflowResult {
    /// The workflow execution ID.
    pub workflow_execution_id: u128,
    /// Whether an idempotency key was used.
    pub idempotency_key_used: bool,
    /// Whether a new execution was created (`false`: an existing one was
    /// returned).
    pub idempotency_key_new: bool,
}

/// Options for starting a workflow.
#[derive(Debug, Clone)]
pub struct StartWorkflowOptions {
    /// Labels of the workflow.
    pub labels: HashMap<String, String>,
    /// The task queue to use.
    pub queue: String,
    /// Priority in seconds (higher = lower priority).
    pub priority_seconds: i32,
    /// Idempotency key for deduplication.
    pub idempotency_key: Option<String>,
    /// How long the idempotency key is kept.
    pub idempotency_key_ttl: Option<Duration>,
    /// The workflow version to run.
    pub workflow_version: Option<String>,
}

impl StartWorkflowOptions {
    /// Options on the `default` queue, with nothing else set.
    pub fn new() -> (r: Self)
        ensures
            r.labels@ == Map::<String, String>::empty(),
            r.queue@ == "default"@,
            r.priority_seconds == 0,
            r.idempotency_key is None,
            r.idempotency_key_ttl is None,
            r.workflow_version is None,
    {
        StartWorkflowOptions {
            labels: HashMap::new(),
            queue: String::from_str("default"),
            priority_seconds: 0,
            idempotency_key: None,
            idempotency_key_ttl: None,
            workflow_version: None,
        }
    }

    /// The options with `labels`.
    pub fn with_labels(self, labels: HashMap<String, String>) -> (r: Self)
        ensures
            r == (StartWorkflowOptions { labels, ..self }),
    {
        StartWorkflowOptions { labels, ..self }
    }

    /// The options with the task queue `queue`.
    pub fn with_queue(self, queue: &str) -> (r: Self)
        ensures
            r.queue@ == queue@,
            r.labels == self.labels,
            r.priority_seconds == self.priority_seconds,
            r.idempotency_key == self.idempotency_key,
            r.idempotency_key_ttl == self.idempotency_key_ttl,
            r.workflow_version == self.workflow_version,
    {
        StartWorkflowOptions { queue: String::from_str(queue), ..self }
    }

    /// The options with priority `seconds`.
    pub fn with_priority(self, seconds: i32) -> (r: Self)
        ensures
            r == (StartWorkflowOptions { priority_seconds: seconds, ..self }),
    {
        StartWorkflowOptions { priority_seconds: seconds, ..self }
    }

    /// The options with the idempotency key `key`.
    pub fn with_idempotency_key(self, key: &str) -> (r: Self)
        ensures
            r.idempotency_key matches Some(k) && k@ == key@,
            r.labels == self.labels,
            r.queue == self.queue,
            r.priority_seconds == self.priority_seconds,
            r.idempotency_key_ttl == self.idempotency_key_ttl,
            r.workflow_version == self.workflow_version,
    {
        StartWorkflowOptions { idempotency_key: Some(String::from_str(key)), ..self }
    }

    /// The options with the idempotency key kept for `ttl`.
    pub fn with_idempotency_key_ttl(self, ttl: Duration) -> (r: Self)
        ensures
            r == (StartWorkflowOptions { idempotency_key_ttl: Some(ttl), ..self }),
    {
        StartWorkflowOptions { idempotency_key_ttl: Some(ttl), ..self }
    }

    /// The options with the workflow version `version`.
    pub fn with_workflow_version(self, version: &str) -> (r: Self)
        ensures
            r.workflow_version matches Some(v) && v@ == version@,
            r.labels == self.labels,
            r.queue == self.queue,
            r.priority_seconds == self.priority_seconds,
            r.idempotency_key == self.idempotency_key,
            r.idempotency_key_ttl == self.idempotency_key_ttl,
    {
        StartWorkflowOptions { workflow_version: Some(String::from_str(version)), ..self }
    }
}

} // verus!
