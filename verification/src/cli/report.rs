//! How the client reads the daemon's answer to each command.
use vstd::prelude::*;
use crate::daemon::protocol::{Op, ResponsePayload, StartData, TcpResponse};
use crate::process::state::ServerState;
use crate::text::copy_str;

verus! {

/// What the client shows for an answer.
#[derive(Debug)]
pub enum Outcome<T> {
    /// The daemon succeeded and sent the payload the command expects.
    Shown(T),
    /// The daemon succeeded but sent another payload.
    InvalidPayload,
    /// The daemon failed, with its message if it sent one.
    Failed(Option<String>),
}

/// The shape shared by every command's reading of an answer: a failure shows
/// the daemon's message, a success shows the expected payload if it is there.
pub open spec fn reads_as<T>(r: TcpResponse, expected: Option<T>, out: Outcome<T>) -> bool {
    if !r.success {
        out == Outcome::<T>::Failed(r.error)
    } else {
        match expected {
            Some(x) => out == Outcome::Shown(x),
            None => out is InvalidPayload,
        }
    }
}

/// The answer to `start`: the start data.
pub fn start_outcome(r: TcpResponse) -> (o: Outcome<StartData>)
    ensures
        reads_as(
            r,
            match r.data {
                ResponsePayload::Start(d) => Some(d),
                _ => None,
            },
            o,
        ),
{
    if !r.success {
        return Outcome::Failed(r.error);
    }
    match r.data {
        ResponsePayload::Start(d) => Outcome::Shown(d),
        _ => Outcome::InvalidPayload,
    }
}

/// The answer to `stop`: the daemon's message.
pub fn stop_outcome(r: TcpResponse) -> (o: Outcome<String>)
    ensures
        reads_as(
            r,
            match r.data {
                ResponsePayload::Simple(m) => Some(m),
                _ => None,
            },
            o,
        ),
{
    if !r.success {
        return Outcome::Failed(r.error);
    }
    match r.data {
        ResponsePayload::Simple(m) => Outcome::Shown(m),
        _ => Outcome::InvalidPayload,
    }
}

/// The answer to `status`: the server's state.
pub fn status_outcome(r: TcpResponse) -> (o: Outcome<ServerState>)
    ensures
        reads_as(
            r,
            match r.data {
                ResponsePayload::Status(s) => Some(s),
                _ => None,
            },
            o,
        ),
{
    if !r.success {
        return Outcome::Failed(r.error);
    }
    match r.data {
        ResponsePayload::Status(s) => Outcome::Shown(s),
        _ => Outcome::InvalidPayload,
    }
}

/// The answer to `op`: the operator change that was made.
pub fn op_outcome(r: TcpResponse) -> (o: Outcome<Op>)
    ensures
        reads_as(
            r,
            match r.data {
                ResponsePayload::OpResult(op) => Some(op),
                _ => None,
            },
            o,
        ),
{
    if !r.success {
        return Outcome::Failed(r.error);
    }
    match r.data {
        ResponsePayload::OpResult(op) => Outcome::Shown(op),
        _ => Outcome::InvalidPayload,
    }
}

/// How an operator change is described: `Op` or `Deop`.
pub fn action_label(op: bool) -> (s: String)
    ensures
        s@ == if op {
            "Op"@
        } else {
            "Deop"@
        },
{
    if op {
        copy_str("Op")
    } else {
        copy_str("Deop")
    }
}

} // verus!
