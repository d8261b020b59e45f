//! Process-control core of a minimal interactive tracer for Linux.
//!
//! The crate keeps the state of one traced process at a time and drives the
//! kernel's trace facility for it: attach, detach, continue, terminate and
//! register inspection, and the continue-and-wait protocol that decides from
//! a wait status whether the process is still held.
//!
//! Reading `/proc`, forking, printing and line editing are left to the
//! program around this library, which hands over what it read as plain
//! values.

pub mod cli;
pub mod error;
pub mod platform;
pub mod process;
pub mod ptrace;
pub mod session;
pub mod text;
pub mod traits;
