//! Orchestration of a compile-then-execute pipeline that runs untrusted
//! source code inside restricted containers.
//!
//! The library owns the logic of the pipeline: the per-language command
//! table, the decoding of captured process output, and the state machine
//! that runs compilation and, only on success, execution. Spawning the
//! container engine and provisioning the host-side workspace are left to
//! the surrounding program, which feeds the observed outcomes back into
//! the state machine as events.

pub mod command;
pub mod sandbox;
