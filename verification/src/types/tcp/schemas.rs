use vstd::prelude::*;

verus! {

/// Grant (`op == true`) or revoke operator rights of a player.
#[derive(Debug, Clone)]
pub struct Op {
    pub player: String,
    pub op: bool,
}

/// What the daemon reports after a successful start.
#[derive(Debug)]
pub struct StartData {
    pub version: String,
    pub address: String,
}

} // verus!
