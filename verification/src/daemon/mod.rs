//! The folden service: its configuration, the mapping of handled directories
//! and the answers to client requests.

pub mod config;
pub mod endpoints;
pub mod handler_mapping;
pub mod laws;
pub mod mapping;
pub mod modify;
pub mod register;
pub mod resume_config;
pub mod service_control;
pub mod start;
pub mod startup;
pub mod stop;
pub mod strategy;
