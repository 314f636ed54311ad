//! The command-line client: its arguments, its configuration, its connection
//! to the daemon, and how it reads the daemon's answers.

pub mod args;
pub mod client;
pub mod config;
pub mod report;
