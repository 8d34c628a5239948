//! A minimal remote-process supervisor over SSH.
//!
//! The library is the decision core: it builds the exact command strings that
//! go out on the wire, scans remote output for the process-identifier
//! announcement, folds channel events into exit codes, and tracks the
//! connected/shut-down lifecycle. All network I/O is performed by the
//! surrounding application, which hands the library plain values (byte
//! chunks, channel events, step outcomes) and sends what the library builds.

pub mod cli;
pub mod errors;
pub mod scanner;
pub mod ssh_runtime;
pub mod ssh_session;
