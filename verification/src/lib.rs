//! Verified core of a Ctrl-C handler for the Win32 console.
//!
//! The crate holds every decision of the handler and none of its system
//! calls: which native identifier stands for which kind of signal, which
//! system call comes next while the handler is being set up or waited on,
//! and what each value that a call hands back means.

pub mod error;
pub mod handler;
pub mod invariants;
pub mod signal;
