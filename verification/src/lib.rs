//! Control-loop engine for self-managing operations.
//!
//! A process hosts named controllers, each owning operations that correct or
//! probe an external resource. The engine governs the lifecycle of one
//! operation invocation: lock state, bounded retry, fault isolation, and the
//! ordered event stream reported to the caller. Everything here is pure
//! state-machine logic; the surrounding tasks (timers, file access, transport)
//! drive these functions from outside.

pub mod conditions;
pub mod controller;
pub mod entry;
pub mod manager;
pub mod operations;
pub mod retry;
pub mod sensor;
pub mod states;
