use vstd::prelude::*;

verus! {

/// Game and loader versions announced by a running server.
#[derive(Debug, Clone)]
pub struct McVersion {
    pub mc_version: String,
    pub fabric_version: String,
}

} // verus!
