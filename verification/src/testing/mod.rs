pub mod assertions;
pub mod builders;
pub mod mock_task_context;
pub mod mock_workflow_context;
pub mod test_environment;
pub mod time_controller;
