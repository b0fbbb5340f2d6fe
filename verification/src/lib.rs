//! Postmite's IPC boundary and persistence rules, verified with Verus.
//!
//! The crate holds the typed DTOs that cross the desktop shell's IPC
//! boundary, the request and workspace model they are converted to, the
//! mapping of every failure to a stable, secret-free `IpcError`, the command
//! handlers that validate their input before delegating to the services
//! (Postman interchange and native backups among them), and
//! the pure rules of the SQLite workspace store (validation, redaction,
//! ordering of collection trees, retention of execution history).
#![allow(unused_imports)]

pub mod errors;
pub mod body_digest;
pub mod execution;
pub mod handlers;
pub mod store;
pub mod conversions;
pub mod domain;
pub mod dto;
pub mod ids;
pub mod interchange;

