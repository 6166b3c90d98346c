//! Coverage queries and test-target suggestions over the Codecov API.
//!
//! The library holds the parts of the Codecov MCP server that decide and
//! compute: configuration validation, request URLs, status classification,
//! the polling state machine, the filtering and ranking pipeline and the
//! assembly of tool outputs.  Network access, JSON handling and floating
//! point scoring are done by the caller.

pub mod text;
pub mod resources;
pub mod heuristics;
pub mod error;
pub mod config;
pub mod auth;
pub mod codecov_client;
pub mod models;
pub mod tools;
