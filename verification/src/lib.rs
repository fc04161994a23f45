//! Core logic of a desktop notification session service.
//!
//! The service tracks live notification records in a store keyed by id,
//! keeps a bounded history of past notifications, computes expiry durations
//! from urgency hints, and decides which renderer pushes and closure signals
//! each operation must produce. The async runtime, the renderer process and
//! the IPC transport live outside this crate: every operation here is a pure
//! state transition that returns the directives the surrounding service has
//! to carry out.

pub mod actions;
pub mod config;
pub mod daemon;
pub mod history;
pub mod icon;
pub mod timeout;
