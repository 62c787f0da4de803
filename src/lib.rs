//! Runtime command orchestration for a desktop container console: argument
//! vectors for the runtime binary, parsers for its listing and statistics
//! output, outcome rules for lifecycle commands, the in-memory state store and
//! the line-forwarding protocol of streaming commands.
pub mod text;
pub mod models;
pub mod invoker;
pub mod listing;
pub mod container_service;
pub mod image_service;
pub mod json;
pub mod stats_service;
pub mod system_service;
pub mod ids;
pub mod state;
pub mod streaming;
