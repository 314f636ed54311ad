//! Verified core of a Minecraft server manager: the log-line grammar, the
//! server state machines, the daemon's decision functions and the wire types
//! shared by the daemon and its command-line client.

pub mod types;
pub mod text;
pub mod process;
pub mod config;
pub mod daemon;
pub mod cli;
pub mod legacy;
