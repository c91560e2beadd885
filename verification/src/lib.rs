//! A small process supervisor: it launches a fixed set of declared child
//! processes, polls them periodically for liveness, re-spawns failed ones
//! according to a per-process restart policy, and terminates all of them on
//! an operator-requested shutdown.
//!
//! This crate holds the supervision core: the process-spec data model, the
//! per-handle lifecycle state machine, the restart policy, and coordinated
//! shutdown. Reading the manifest, argument parsing, and the actual OS calls
//! (spawn, wait, kill, sleep) live outside the core and feed it plain values.

pub mod config;
pub mod expand;
pub mod handle;
pub mod launch;
pub mod supervisor;
