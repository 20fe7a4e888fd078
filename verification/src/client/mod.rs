pub mod builder;
pub mod hook;
pub mod options;
pub mod registration;
pub mod start;
pub mod task_execution;
pub mod wait;
pub mod workflow_query;
