//! Decisions of the daemon's actor, the single owner of the server process.
//! The actor performs the waits, signals and replies; these functions decide,
//! from the state and the outcome of each wait, what it does next and what it
//! answers.
use vstd::prelude::*;
use crate::process::error::Error;
use crate::process::logs::{EventView, McLog, ServerEvent};
use crate::process::process::strings_view;
use crate::process::state::{jvm_alive, running, McVersion, ServerState};
use crate::text::{copy_str, decimal, push_char, push_decimal, push_str};

verus! {

broadcast use vstd::string::group_string_axioms;

/// How a bounded wait for a target state ended.
#[derive(Debug)]
pub enum Waited {
    /// The target state was reached.
    Reached,
    /// The wait gave up early, with the reason.
    Failed(String),
    /// The deadline passed first.
    TimedOut,
}

// ---------------------------------------------------------------------------
// Start
// ---------------------------------------------------------------------------
/// The reply to a start that did not reach `Running` in time.
pub open spec fn start_timeout_text(secs: u64) -> Seq<char> {
    "Timeout: el servidor tardó más de "@ + decimal(secs as nat) + "s en arrancar."@
}

/// The version reported after a start: the game version if the server
/// announced one, `Unknown` otherwise.
pub fn version_label(version: &Option<McVersion>) -> (s: String)
    ensures
        s@ == match version {
            Some(v) => v.mc_version@,
            None => "Unknown"@,
        },
{
    match version {
        Some(v) => v.mc_version.clone(),
        None => copy_str("Unknown"),
    }
}

/// A start that timed out is escalated to a forced kill.
pub fn start_needs_force_kill(waited: &Waited) -> (r: bool)
    ensures
        r == waited is TimedOut,
{
    match waited {
        Waited::TimedOut => true,
        _ => false,
    }
}

/// How many of the server's latest output lines a timed-out start reports.
pub const PARTIAL_LOG_LINES: usize = 20;

/// The latest [`PARTIAL_LOG_LINES`] of `lines` (all of them if there are
/// fewer).
pub open spec fn latest_lines(lines: Seq<Seq<char>>) -> Seq<Seq<char>> {
    if lines.len() > PARTIAL_LOG_LINES {
        lines.subrange(lines.len() - PARTIAL_LOG_LINES, lines.len() as int)
    } else {
        lines
    }
}

/// Records the message of an output line seen while a start is awaited;
/// only the latest lines are kept.
pub fn record_partial_log(partial: &mut Vec<String>, log: &McLog)
    ensures
        strings_view(final(partial)@) == latest_lines(
            strings_view(old(partial)@).push(log.message@),
        ),
{
    let ghost full = strings_view(old(partial)@).push(log.message@);
    partial.push(log.message.clone());
    assert(strings_view(partial@) =~= full);
    while partial.len() > PARTIAL_LOG_LINES
        invariant
            partial@.len() <= full.len(),
            partial@.len() == full.len() || partial@.len() >= PARTIAL_LOG_LINES,
            strings_view(partial@) == full.subrange(full.len() - partial@.len(), full.len() as int),
        decreases partial.len(),
    {
        let ghost before = partial@;
        partial.remove(0);
        assert(strings_view(partial@) =~= strings_view(before).subrange(1, before.len() as int));
        assert(strings_view(partial@) =~= full.subrange(
            full.len() - partial@.len(),
            full.len() as int,
        ));
    }
    proof {
        if full.len() <= PARTIAL_LOG_LINES {
            assert(full.subrange(0, full.len() as int) =~= full);
        }
    }
}

/// The lines `lines`, each on a line of its own after what precedes them.
pub open spec fn lines_block(lines: Seq<Seq<char>>) -> Seq<char>
    decreases lines.len(),
{
    if lines.len() == 0 {
        Seq::empty()
    } else {
        lines_block(lines.drop_last()) + seq!['\n'] + lines.last()
    }
}

/// The reply to a start that timed out: the timeout, then the server's
/// latest output lines.
pub open spec fn start_timeout_report(secs: u64, partial: Seq<Seq<char>>) -> Seq<char> {
    start_timeout_text(secs) + lines_block(partial)
}

/// The reply to a start once the wait for `Running` has ended: the version
/// and the address on success, the reason otherwise. A timed-out start
/// reports the partial logs gathered during the wait.
pub fn start_reply(
    waited: Waited,
    version: String,
    address: String,
    start_timeout_secs: u64,
    partial: &Vec<String>,
) -> (r: Result<(String, String), String>)
    ensures
        match waited {
            Waited::Reached => r matches Ok((v, a)) && v@ == version@ && a@ == address@,
            Waited::Failed(e) => r matches Err(m) && m@ == e@,
            Waited::TimedOut => r matches Err(m) && m@ == start_timeout_report(
                start_timeout_secs,
                strings_view(partial@),
            ),
        },
{
    match waited {
        Waited::Reached => Ok((version, address)),
        Waited::Failed(e) => Err(e),
        Waited::TimedOut => {
            let mut m = copy_str("Timeout: el servidor tardó más de ");
            push_decimal(&mut m, start_timeout_secs);
            push_str(&mut m, "s en arrancar.");
            let ghost head = m@;
            let ghost lines = strings_view(partial@);
            let mut i: usize = 0;
            while i < partial.len()
                invariant
                    i <= partial@.len(),
                    lines == strings_view(partial@),
                    m@ == head + lines_block(lines.take(i as int)),
                decreases partial.len() - i,
            {
                assert(lines.take(i + 1).drop_last() =~= lines.take(i as int));
                assert(lines.take(i + 1).last() == partial@[i as int]@);
                push_char(&mut m, '\n');
                push_str(&mut m, &partial[i]);
                assert(m@ =~= head + lines_block(lines.take(i + 1)));
                i = i + 1;
            }
            assert(lines.take(partial@.len() as int) =~= lines);
            Err(m)
        },
    }
}

// ---------------------------------------------------------------------------
// Stop and shutdown
// ---------------------------------------------------------------------------
/// What a stop (or the daemon's shutdown) does first, given the state.
#[derive(Debug, Clone, Copy, PartialEq, Eq, Structural)]
pub enum StopPlan {
    /// Nothing is running: answer at once.
    AlreadyStopped,
    /// Write `stop` to the server, then wait for `Stopped`.
    SendStop,
    /// A stop is under way: only wait for `Stopped`.
    AwaitStopped,
}

/// What a stop does first in state `current`.
pub open spec fn plan_for(current: ServerState) -> StopPlan {
    match current {
        ServerState::Stopped | ServerState::Crashed => StopPlan::AlreadyStopped,
        ServerState::Running | ServerState::Starting => StopPlan::SendStop,
        ServerState::Stopping => StopPlan::AwaitStopped,
    }
}

/// Stop is idempotent: from `Stopped` or `Crashed` there is nothing to do; a
/// live server is sent `stop`; a server already stopping is waited for.
pub fn stop_plan(current: ServerState) -> (p: StopPlan)
    ensures
        p == plan_for(current),
{
    match current {
        ServerState::Stopped | ServerState::Crashed => StopPlan::AlreadyStopped,
        ServerState::Running | ServerState::Starting => StopPlan::SendStop,
        ServerState::Stopping => StopPlan::AwaitStopped,
    }
}

/// Both terminal states behave alike: a start goes ahead from `Stopped` and
/// from `Crashed`, and only there (elsewhere a JVM is alive), and a stop
/// there answers at once. Conversely, a stop answers at once only in a
/// terminal state.
pub proof fn lemma_terminal_states_restart(state: ServerState)
    ensures
        (state == ServerState::Stopped || state == ServerState::Crashed) <==> plan_for(state)
            == StopPlan::AlreadyStopped,
        (state == ServerState::Stopped || state == ServerState::Crashed) <==> !jvm_alive(state),
        (state == ServerState::Stopped || state == ServerState::Crashed) ==> !running(state),
{
}

/// The reply to a stop when nothing was running.
pub fn already_stopped_reply() -> (r: Result<String, String>)
    ensures
        r matches Ok(m) && m@ == "El servidor ya estaba detenido."@,
{
    Ok(copy_str("El servidor ya estaba detenido."))
}

/// After the graceful wait: the reply if the server stopped, or `None` when
/// the stop must be escalated to a forced kill.
pub fn stop_after_graceful(waited: &Waited) -> (r: Option<Result<String, String>>)
    ensures
        waited is Reached <==> r is Some,
        r matches Some(reply) ==> (reply matches Ok(m) && m@ == "Server Stopped"@),
{
    match waited {
        Waited::Reached => Some(Ok(copy_str("Server Stopped"))),
        _ => None,
    }
}

/// The message of a forced kill that did not bring the server down.
pub open spec fn force_kill_failed_text() -> Seq<char> {
    "force kill did not stop the jvm"@
}

/// The reply once the forced kill's wait has ended.
pub fn stop_after_forced(waited: &Waited) -> (r: Result<String, String>)
    ensures
        waited is Reached ==> (r matches Ok(m) && m@ == "Server force-killed"@),
        !(waited is Reached) ==> (r matches Err(m) && m@ == force_kill_failed_text()),
{
    match waited {
        Waited::Reached => Ok(copy_str("Server force-killed")),
        _ => Err(copy_str("force kill did not stop the jvm")),
    }
}

/// The shutdown's answer after the graceful wait, or `None` to escalate.
pub fn shutdown_after_graceful(waited: &Waited) -> (r: Option<Result<(), String>>)
    ensures
        waited is Reached <==> r is Some,
        r matches Some(reply) ==> reply is Ok,
{
    match waited {
        Waited::Reached => Some(Ok(())),
        _ => None,
    }
}

/// The shutdown's answer once the forced kill's wait has ended.
pub fn shutdown_after_forced(waited: &Waited) -> (r: Result<(), String>)
    ensures
        waited is Reached ==> r is Ok,
        !(waited is Reached) ==> (r matches Err(m) && m@ == force_kill_failed_text()),
{
    match waited {
        Waited::Reached => Ok(()),
        _ => Err(copy_str("force kill did not stop the jvm")),
    }
}

// ---------------------------------------------------------------------------
// Op and the event log
// ---------------------------------------------------------------------------
/// The reply to an operator change: the supervisor's error is not passed on.
pub fn op_reply(res: &Result<(), Error>) -> (r: Result<(), String>)
    ensures
        res is Ok <==> r is Ok,
        r matches Err(m) ==> m@ == "Error sending Command."@,
{
    match res {
        Ok(()) => Ok(()),
        Err(_) => Err(copy_str("Error sending Command.")),
    }
}

/// How loudly a log event is reported by the daemon.
#[derive(Debug, Clone, Copy, PartialEq, Eq, Structural)]
pub enum LogLevel {
    Debug,
    Info,
}

/// Unrecognised lines are not reported, chat is reported at debug level and
/// every other event at info level.
pub fn event_log_level(event: &ServerEvent) -> (r: Option<LogLevel>)
    ensures
        r == match event@ {
            EventView::Unknown => None,
            EventView::Chat { .. } => Some(LogLevel::Debug),
            _ => Some(LogLevel::Info),
        },
{
    match event {
        ServerEvent::Unknown => None,
        ServerEvent::Chat { .. } => Some(LogLevel::Debug),
        _ => Some(LogLevel::Info),
    }
}

} // verus!
