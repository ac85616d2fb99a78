//! Pick a named SSH connection from a configuration file and launch `ssh` on it.
//!
//! The crate holds the decisions of the tool: where the configuration file
//! lies, what its JSON text means, which labels the picker shows, and which
//! command is run for the entry that was picked. Reading the file, asking the
//! user and running the command are left to the caller, which is driven by
//! the state machine in [`session`].

pub mod announce;
pub mod config;
pub mod entry;
pub mod failure;
pub mod json;
pub mod locate;
pub mod session;
