pub mod context;
pub mod executor;
pub mod registry;
pub mod streaming;
