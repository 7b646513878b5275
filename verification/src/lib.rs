//! Keeps a push-triggered server process running by pushing a trivial change at intervals.
//!
//! The crate holds the decisions of that cycle: how the outcome of a git command is read,
//! which step of an upload comes next, how the loop reacts to a finished upload, and how
//! long to wait before the next one. Running commands, touching files and sleeping are
//! left to the caller, which reports back what happened.

pub mod git_interaction;
pub mod looping;
pub mod new_push;
pub mod sheet_name;
pub mod waiting;
