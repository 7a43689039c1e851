//! Gatekeeping and serialization layer for a single-route HTTP front end to a
//! long-lived, non-reentrant daemon.
//!
//! The crate holds every decision of that layer as verified code over plain
//! values: startup configuration, bearer-token admission, the per-request
//! protocol around the daemon's exclusive cell, and the translation of
//! outcomes into responses. Sockets, tasks and the lock itself belong to the
//! embedding program, which feeds events in and carries actions out.

pub mod config;
pub mod response;
pub mod json;
pub mod auth;
pub mod exchange;
pub mod server;
pub mod serial;
pub mod text;

pub use crate::config::{parse_port, ConfigError, DEFAULT_PORT};
pub use crate::exchange::{auth_stdin_handler, stdin_handler, Action, Event, Exchange};
pub use crate::json::daemon_outcome;
pub use crate::response::{Failure, Media, Response, Status};
pub use crate::server::{Server, Service, ROUTE};
