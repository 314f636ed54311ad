//! Command-line arguments of the client.
use vstd::prelude::*;

verus! {

/// The client's arguments.
#[derive(Debug)]
pub struct Cli {
    /// Log at debug level.
    pub verbose: bool,
    /// Address of the daemon.
    pub address: String,
    /// What to do.
    pub command: Option<Commands>,
}

/// What the client asks the daemon to do.
#[derive(Debug)]
pub enum Commands {
    Start,
    Stop,
    Status,
    Op { player: String, op: bool },
}

} // verus!
