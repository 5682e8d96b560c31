//! Core logic of a small task-list web application: the todo store model,
//! input validation, the error-to-status mapper, and the per-endpoint
//! handler decisions. The surrounding process (HTTP server, relational
//! store driver, template engine) lives outside this crate.

pub mod database;
pub mod error;
pub mod forms;
pub mod handlers;
pub mod laws;
pub mod render;
