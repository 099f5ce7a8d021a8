//! Decision logic of a desktop shell that supervises a local search daemon.
//!
//! The shell itself performs the process control, the HTTP exchanges and the
//! window handling; every rule about what to do next, and what to report to
//! the user, lives here as a function from plain values to plain values.

pub mod launch;
pub mod process;
pub mod query;
pub mod shell;
pub mod stats;
pub mod status;
