//! Folden: directory handlers driven by file-system events.
//!
//! The library holds the decisions of the folden service and its client:
//! which directories are handled, how handlers are started, stopped and
//! modified, how pipelines react to events, and how requests are built.

pub mod archive_join;
pub mod client;
pub mod daemon;
pub mod messages;
pub mod patterns;
pub mod pipelines;
pub mod std_bindings;
pub mod text;
pub mod watch_channel;
