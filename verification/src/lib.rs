pub mod client;
pub mod common;
pub mod error;
pub mod task;
pub mod telemetry;
pub mod testing;
pub mod worker;
pub mod workflow;
