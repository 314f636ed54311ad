//! The supervisor's lifecycle state machine, driven by parsed log events.
use vstd::prelude::*;
use crate::process::logs::{EventView, ServerEvent};
use crate::text::copy_str;

pub use crate::types::server::version::McVersion;

verus! {

/// Lifecycle state of the server process.
#[derive(Debug, Copy, Clone, PartialEq, Eq, Structural)]
pub enum ServerState {
    Stopped,
    Starting,
    Running,
    Stopping,
    Crashed,
}

/// The log-driven transitions: a loader start announced while `Stopped`
/// starts the server, `Ready` while `Starting` makes it `Running`, and a stop
/// announced while `Running` makes it `Stopping`. Nothing else moves it.
pub open spec fn transition(state: ServerState, event: EventView) -> Option<ServerState> {
    match (state, event) {
        (ServerState::Stopped, EventView::Starting { .. }) => Some(ServerState::Starting),
        (ServerState::Starting, EventView::Ready(_)) => Some(ServerState::Running),
        (ServerState::Running, EventView::Stopping) => Some(ServerState::Stopping),
        _ => None,
    }
}

/// How a state is written for people.
pub open spec fn state_name(state: ServerState) -> Seq<char> {
    match state {
        ServerState::Stopped => "Stopped"@,
        ServerState::Starting => "Starting"@,
        ServerState::Running => "Running"@,
        ServerState::Stopping => "Stopping"@,
        ServerState::Crashed => "Crashed"@,
    }
}

/// A JVM process is alive: starting, running or stopping.
pub open spec fn jvm_alive(state: ServerState) -> bool {
    state == ServerState::Starting || state == ServerState::Running || state
        == ServerState::Stopping
}

/// A JVM is alive and accepting commands.
pub open spec fn running(state: ServerState) -> bool {
    state == ServerState::Running || state == ServerState::Starting
}

impl ServerState {
    /// Pure state-machine transition: the next state if `event` triggers a
    /// transition from `self`, otherwise `None`.
    pub fn next(self, event: &ServerEvent) -> (res: Option<ServerState>)
        ensures
            res == transition(self, event@),
    {
        match (self, event) {
            (ServerState::Stopped, ServerEvent::Starting { .. }) => Some(ServerState::Starting),
            (ServerState::Starting, ServerEvent::Ready(_)) => Some(ServerState::Running),
            (ServerState::Running, ServerEvent::Stopping) => Some(ServerState::Stopping),
            _ => None,
        }
    }

    /// Whether a JVM is alive in this state (`Running` or `Starting`).
    pub fn is_running(self) -> (r: bool)
        ensures
            r == running(self),
    {
        match self {
            ServerState::Running | ServerState::Starting => true,
            _ => false,
        }
    }

    /// The state's name, as `Display` writes it.
    pub fn to_display_string(self) -> (s: String)
        ensures
            s@ == state_name(self),
    {
        match self {
            ServerState::Stopped => copy_str("Stopped"),
            ServerState::Starting => copy_str("Starting"),
            ServerState::Running => copy_str("Running"),
            ServerState::Stopping => copy_str("Stopping"),
            ServerState::Crashed => copy_str("Crashed"),
        }
    }
}

/// No log line can make the server crash or stop: those states are set only
/// when the process exits.
pub proof fn lemma_events_never_end_the_process(state: ServerState, event: EventView)
    ensures
        transition(state, event) != Some(ServerState::Crashed),
        transition(state, event) != Some(ServerState::Stopped),
{
}

/// A crashed server is not restarted by any log line.
pub proof fn lemma_crashed_ignores_events(event: EventView)
    ensures
        transition(ServerState::Crashed, event) is None,
{
}

/// Chat and unrecognised lines never change the state.
pub proof fn lemma_chat_and_unknown_are_inert(state: ServerState, author: Seq<char>, msg: Seq<char>)
    ensures
        transition(state, EventView::Chat { author, msg }) is None,
        transition(state, EventView::Unknown) is None,
{
}

/// Every transition moves forward through `Stopped → Starting → Running →
/// Stopping`, one step at a time.
pub proof fn lemma_transitions_advance_one_step(state: ServerState, event: EventView)
    ensures
        transition(state, event) matches Some(next) ==> ({
            ||| state == ServerState::Stopped && next == ServerState::Starting
            ||| state == ServerState::Starting && next == ServerState::Running
            ||| state == ServerState::Running && next == ServerState::Stopping
        }),
{
}

} // verus!
