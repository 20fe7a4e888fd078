pub mod async_ops;
pub mod combinators;
pub mod command;
pub mod context;
pub mod context_impl;
pub mod event;
pub mod laws;
pub mod outcome;
pub mod replay;
pub mod task_submitter;
