pub mod consent;
pub mod control;
pub mod lifecycle;
pub mod poll_loop;
pub mod registry;
pub mod task_report;
pub mod wire;
pub mod workflow_task;
