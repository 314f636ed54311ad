//! Decisions of the daemon's TCP front end: which lines are requests, and
//! which response answers each request given the actor's reply.
use vstd::prelude::*;
use crate::config::{default_daemon, DaemonCfg};
use crate::daemon::protocol::{Op, ResponsePayload, StartData, TcpResponse};
use crate::process::state::ServerState;
use crate::text::{copy_str, push_str, trim, trimmed};

verus! {

broadcast use vstd::string::group_string_axioms;

/// The request text of a received line: the line without surrounding white
/// space, or `None` for a blank line, which is skipped.
pub fn request_text(line: &str) -> (r: Option<Vec<char>>)
    ensures
        trim(line@).len() == 0 <==> r is None,
        r matches Some(t) ==> t@ == trim(line@),
{
    let t = trimmed(line);
    if t.len() == 0 {
        None
    } else {
        Some(t)
    }
}

/// The response to a line that is not a valid request.
pub fn invalid_json_response(detail: &str) -> (r: TcpResponse)
    ensures
        !r.success,
        r.error matches Some(e) && e@ == "Invalid Json: "@ + detail@,
        r.data is Empty,
{
    let mut m = copy_str("Invalid Json: ");
    push_str(&mut m, detail);
    TcpResponse::error(&m)
}

/// The response to `Status`.
pub fn status_response(state: ServerState) -> (r: TcpResponse)
    ensures
        r.success,
        r.error is None,
        r.data == ResponsePayload::Status(state),
{
    TcpResponse::ok_with(ResponsePayload::Status(state))
}

/// The response to `Start`: the version and address on success, the
/// actor's reason otherwise.
pub fn start_response(reply: Result<(String, String), String>) -> (r: TcpResponse)
    ensures
        r.success == reply is Ok,
        reply matches Ok((v, a)) ==> (r.error is None && (r.data matches ResponsePayload::Start(d)
            && d.version@ == v@ && d.address@ == a@)),
        reply matches Err(e) ==> (r.error matches Some(m) && m@ == e@ && r.data is Empty),
{
    match reply {
        Ok((version, address)) => TcpResponse::ok_with(
            ResponsePayload::Start(StartData { version, address }),
        ),
        Err(e) => TcpResponse::error(&e),
    }
}

/// The response to `Stop`: the actor's message on success, its reason
/// otherwise.
pub fn stop_response(reply: Result<String, String>) -> (r: TcpResponse)
    ensures
        r.success == reply is Ok,
        reply matches Ok(msg) ==> (r.error is None && (r.data matches ResponsePayload::Simple(m)
            && m@ == msg@)),
        reply matches Err(e) ==> (r.error matches Some(m) && m@ == e@ && r.data is Empty),
{
    match reply {
        Ok(msg) => TcpResponse::ok_with(ResponsePayload::Simple(msg)),
        Err(e) => TcpResponse::error(&e),
    }
}

/// The response to `Op`: it reports success only when the actor did, and
/// then echoes the request.
pub fn op_response(reply: Result<(), String>, op: Op) -> (r: TcpResponse)
    ensures
        r.success == reply is Ok,
        reply is Ok ==> (r.error is None && r.data == ResponsePayload::OpResult(op)),
        reply matches Err(e) ==> (r.error matches Some(m) && m@ == e@ && r.data is Empty),
{
    match reply {
        Ok(()) => TcpResponse::ok_with(ResponsePayload::OpResult(op)),
        Err(e) => TcpResponse::error(&e),
    }
}

/// How long, in seconds, the daemon waits for the actor to answer its
/// shutdown before exiting anyway.
pub const SHUTDOWN_REPLY_SECS: u64 = 45;

/// Under the built-in settings the daemon's wait for the shutdown answer
/// outlasts the actor's graceful stop and forced kill together, so a
/// shutdown that the actor completes within its own deadlines is heard.
pub proof fn lemma_shutdown_wait_outlasts_actor(cfg: DaemonCfg)
    requires
        default_daemon(cfg),
    ensures
        cfg.stop_timeout_secs + cfg.force_kill_timeout_secs < SHUTDOWN_REPLY_SECS,
{
}

/// How the daemon's request to shut the actor down ended.
#[derive(Debug)]
pub enum ShutdownOutcome {
    /// The actor could not be reached.
    ChannelClosed,
    /// The actor answered.
    Replied(Result<(), String>),
    /// The actor went away without answering.
    NoReply,
    /// The actor did not answer in time.
    TimedOut,
}

/// What is logged when the daemon stops: whether it is an error, and the
/// message.
pub fn shutdown_report(outcome: ShutdownOutcome) -> (r: (bool, String))
    ensures
        match outcome {
            ShutdownOutcome::ChannelClosed => r.0 && r.1@ == "actor channel closed"@,
            ShutdownOutcome::Replied(Ok(())) => !r.0 && r.1@ == "daemon stopped"@,
            ShutdownOutcome::Replied(Err(e)) => r.0 && r.1@ == "shutdown error: "@ + e@,
            ShutdownOutcome::NoReply => r.0 && r.1@ == "actor exited without reply"@,
            ShutdownOutcome::TimedOut => r.0 && r.1@ == "actor reply timed out"@,
        },
{
    match outcome {
        ShutdownOutcome::ChannelClosed => (true, copy_str("actor channel closed")),
        ShutdownOutcome::Replied(Ok(())) => (false, copy_str("daemon stopped")),
        ShutdownOutcome::Replied(Err(e)) => {
            let mut m = copy_str("shutdown error: ");
            push_str(&mut m, &e);
            (true, m)
        },
        ShutdownOutcome::NoReply => (true, copy_str("actor exited without reply")),
        ShutdownOutcome::TimedOut => (true, copy_str("actor reply timed out")),
    }
}

} // verus!
