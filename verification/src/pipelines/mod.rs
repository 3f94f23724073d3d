//! Pipelines: what a directory handler does when a file event arrives.

pub mod actions;
pub mod event;
pub mod laws;
pub mod move_to_dir;
pub mod pipeline_config;
pub mod pipeline_context_input;
pub mod pipeline_execution_context;
pub mod pipeline_handler;
pub mod run_cmd;
