use vstd::prelude::*;

verus! {

/// An event recognised in one line of the server's log.
#[derive(Debug, Clone, PartialEq)]
pub enum ServerEvent {
    /// The loader announced the game and loader versions.
    Starting { mc_version: String, fabric_version: String },
    /// The server finished loading; carries the reported start-up time.
    Ready(String),
    /// The server announced that it is stopping.
    Stopping,
    /// A chat message written by a player.
    Chat { author: String, msg: String },
    /// Any other line.
    Unknown,
}

} // verus!
