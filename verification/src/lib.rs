//! Startup sequencing for a desktop application shell.
//!
//! The shell attaches a fixed set of capability extensions to a GUI runtime,
//! resolves its startup context and enters the runtime's blocking event loop.
//! This crate holds the decisions of that startup: which step comes next, what
//! a failure leads to, and when the application counts as running or
//! terminated. The embedding program performs each step against the runtime and
//! reports the outcome back.

pub mod capability;
pub mod step;
pub mod lifecycle;
pub mod trace;
