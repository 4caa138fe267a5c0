//! The concurrent core of an incremental document-compilation service.
//!
//! A compile orchestrator owns the compiler state, applies in-memory edits and
//! publishes every successfully compiled document. Satellite actors (export,
//! grammar checking, formatting) react to its notifications. Every actor is
//! written here as a deterministic state machine: it is handed one event and
//! answers with its next state and the action to perform. The scheduler that
//! performs the actions lives outside this crate.

pub mod actor;
pub mod deferred;
pub mod diag;
pub mod entry;
pub mod string_map;
pub mod tools;
