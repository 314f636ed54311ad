use vstd::prelude::*;

verus! {

/// Lifecycle state of the first-generation supervisor.
#[derive(Debug, Copy, Clone, PartialEq, Eq, Structural)]
pub enum ServerState {
    Stopped,
    Starting,
    Loading,
    Saving,
    CreatingBackup,
    Running,
    Stopping,
    Crashed,
}

} // verus!
