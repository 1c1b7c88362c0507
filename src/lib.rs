//! A bridge between a "run a prompt" request and an external agent process.
//!
//! The verified part of the bridge decides everything that does not need the
//! operating system: which arguments and which prompt the process gets, how
//! long it may run, how each decoded output message is routed, and what the
//! exit watcher reports.

pub mod types;
pub mod codex;
pub mod monitor;
pub mod router;
