use vstd::prelude::*;
use crate::types::server::event::ServerEvent;
use crate::text::copy_str;

verus! {

/// Lifecycle state of the server process.
#[derive(Debug, Copy, Clone, PartialEq, Eq, Structural)]
pub enum ServerState {
    Stopped,
    Starting,
    Running,
    Stopping,
    Crashed,
}

/// The event-driven part of the lifecycle: only a `Ready` event seen while
/// `Starting` moves the server on (to `Running`). Every other change of state
/// is made imperatively by the supervisor.
pub open spec fn transition(state: ServerState, event: ServerEvent) -> Option<ServerState> {
    if state == ServerState::Starting && event is Ready {
        Some(ServerState::Running)
    } else {
        None
    }
}

/// How a state is written for people.
pub open spec fn state_name(state: ServerState) -> Seq<char> {
    match state {
        ServerState::Stopped => "Stopped"@,
        ServerState::Starting => "Starting"@,
        ServerState::Running => "Running"@,
        ServerState::Stopping => "Stopping"@,
        ServerState::Crashed => "Crashed"@,
    }
}

impl ServerState {
    /// Pure state-machine transition: the next state if `event` moves the
    /// server on from `self`, `None` otherwise.
    pub fn next(self, event: &ServerEvent) -> (res: Option<ServerState>)
        ensures
            res == transition(self, *event),
    {
        match (self, event) {
            (ServerState::Starting, ServerEvent::Ready(_)) => Some(ServerState::Running),
            _ => None,
        }
    }

    /// The state's name, as `Display` writes it.
    pub fn to_display_string(self) -> (s: String)
        ensures
            s@ == state_name(self),
    {
        match self {
            ServerState::Stopped => copy_str("Stopped"),
            ServerState::Starting => copy_str("Starting"),
            ServerState::Running => copy_str("Running"),
            ServerState::Stopping => copy_str("Stopping"),
            ServerState::Crashed => copy_str("Crashed"),
        }
    }
}

/// Start and stop are imperative: neither a loader-start line nor a stop line
/// moves the server, in any state.
pub proof fn lemma_start_and_stop_lines_are_inert(
    state: ServerState,
    mc_version: String,
    fabric_version: String,
)
    ensures
        transition(state, ServerEvent::Starting { mc_version, fabric_version }) is None,
        transition(state, ServerEvent::Stopping) is None,
{
}

/// The only log-driven change of state is `Starting → Running`.
pub proof fn lemma_only_readiness_is_log_driven(state: ServerState, event: ServerEvent)
    ensures
        transition(state, event) is Some ==> state == ServerState::Starting && event is Ready
            && transition(state, event) == Some(ServerState::Running),
{
}

} // verus!
