//! One step of waiting for the server to reach a target state.
use vstd::prelude::*;
use crate::process::state::{state_name, ServerState};
use crate::text::{copy_str, push_str};

verus! {

broadcast use vstd::string::group_string_axioms;

/// The message of a wait for `Running` that saw the server go down.
pub open spec fn unexpected_stop_text(current: ServerState) -> Seq<char> {
    "El servidor se detuvo inesperadamente (Estado: "@ + state_name(current) + ")"@
}

/// What a wait for `target` concludes on seeing `current`: `None` to keep
/// waiting, or the wait's result. Reaching the target succeeds; a crash
/// counts as stopped when waiting for `Stopped`; a server that went down
/// while waiting for `Running` fails; any other crash fails.
pub open spec fn wait_verdict(current: ServerState, target: ServerState) -> Option<Result<(), Seq<char>>> {
    if current == target {
        Some(Ok(()))
    } else if target == ServerState::Running && (current == ServerState::Stopped || current
        == ServerState::Crashed) {
        Some(Err(unexpected_stop_text(current)))
    } else if target == ServerState::Stopped && current == ServerState::Crashed {
        Some(Ok(()))
    } else if current == ServerState::Crashed {
        Some(Err("Server crashed"@))
    } else {
        None
    }
}

/// The view of a step's result.
pub open spec fn step_view(r: Option<Result<(), String>>) -> Option<Result<(), Seq<char>>> {
    match r {
        Some(Ok(())) => Some(Ok(())),
        Some(Err(m)) => Some(Err(m@)),
        None => None,
    }
}

/// One step of `wait_for_state`: decides on the state just observed.
pub fn wait_step(current: ServerState, target: ServerState) -> (r: Option<Result<(), String>>)
    ensures
        step_view(r) == wait_verdict(current, target),
{
    if current == target {
        return Some(Ok(()));
    }
    match target {
        ServerState::Running => {
            if current == ServerState::Stopped || current == ServerState::Crashed {
                let mut m = copy_str("El servidor se detuvo inesperadamente (Estado: ");
                let name = current.to_display_string();
                push_str(&mut m, &name);
                push_str(&mut m, ")");
                return Some(Err(m));
            }
        },
        ServerState::Stopped => {
            if current == ServerState::Crashed {
                return Some(Ok(()));
            }
        },
        _ => {},
    }
    if current == ServerState::Crashed {
        return Some(Err(copy_str("Server crashed")));
    }
    None
}

/// The result of a wait whose state channel closed.
pub fn state_channel_closed() -> (r: Result<(), String>)
    ensures
        r matches Err(m) && m@ == "Internal error: State channel closed"@,
{
    Err(copy_str("Internal error: State channel closed"))
}

/// A wait for `Stopped` ends successfully on any terminal state, and a wait
/// for `Running` never succeeds before `Running` is seen.
pub proof fn lemma_wait_verdicts(current: ServerState)
    ensures
        (current == ServerState::Stopped || current == ServerState::Crashed) ==> wait_verdict(
            current,
            ServerState::Stopped,
        ) == Some(Ok::<(), Seq<char>>(())),
        wait_verdict(current, ServerState::Running) == Some(Ok::<(), Seq<char>>(())) ==> current
            == ServerState::Running,
{
}

} // verus!
