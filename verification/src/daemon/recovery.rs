//! Orphan detection and recovery at daemon start-up.
//!
//! If a previous daemon died abruptly, its JVM may still run and hold the
//! game port. The pid file says which process to look at; these functions
//! decide whether that process is our orphan and what to do with it.
use vstd::prelude::*;
use crate::config::OrphanPolicy;
use crate::process::error::Error;
use crate::process::pidfile::{path, pid_path};
use crate::text::{chars_of, copy_str, decimal, push_decimal, push_str};

verus! {

broadcast use vstd::string::group_string_axioms;

/// What the process named in the pid file turned out to be.
#[derive(Debug, Clone, Copy, PartialEq, Eq, Structural)]
pub enum Orphan {
    /// No such process, or not a JVM rooted at our working directory: the
    /// pid file is stale.
    Stale,
    /// A live `java` whose working directory is ours.
    Alive,
}

/// Whether `s` holds `java` in any mix of ASCII case starting at `i`.
pub open spec fn java_at(s: Seq<char>, i: int) -> bool {
    &&& 0 <= i && i + 4 <= s.len()
    &&& (s[i] == 'j' || s[i] == 'J')
    &&& (s[i + 1] == 'a' || s[i + 1] == 'A')
    &&& (s[i + 2] == 'v' || s[i + 2] == 'V')
    &&& (s[i + 3] == 'a' || s[i + 3] == 'A')
}

/// Whether the ASCII-lower-cased `name` contains `java`.
pub open spec fn names_java(name: Seq<char>) -> bool {
    exists|i: int| java_at(name, i)
}

/// The classification of the process found under the recorded pid:
/// `found` says whether it exists, `name` is its executable's name, and
/// `cwd_matches` whether its (resolved) working directory is ours, `None`
/// when the working directory could not be read.
pub open spec fn orphan_kind(found: bool, name: Seq<char>, cwd_matches: Option<bool>) -> Orphan {
    if !found || !names_java(name) {
        Orphan::Stale
    } else {
        match cwd_matches {
            Some(true) => Orphan::Alive,
            Some(false) => Orphan::Stale,
            // an unreadable working directory is common for re-parented
            // processes; the pid file lives in our working directory, so a
            // live java under its pid is trusted to be ours
            None => Orphan::Alive,
        }
    }
}

/// The four characters of `name` from `i` spell `java` in some mix of ASCII
/// case.
pub open spec fn spells_java_at(name: Seq<char>, i: int) -> bool {
    &&& 0 <= i && i + 4 <= name.len()
    &&& name[i] == 'j' || name[i] == 'J'
    &&& name[i + 1] == 'a' || name[i + 1] == 'A'
    &&& name[i + 2] == 'v' || name[i + 2] == 'V'
    &&& name[i + 3] == 'a' || name[i + 3] == 'A'
}

/// A live process whose name contains `java` (in any ASCII case, whatever
/// else the name holds, `java` itself included) is our orphan when its
/// working directory is ours or cannot be read, and not when it is another;
/// a process whose name does not contain it, or one that is not found, is
/// never taken for the orphan.
pub proof fn lemma_java_processes_are_orphans(name: Seq<char>, i: int, cwd_matches: Option<bool>)
    ensures
        spells_java_at(name, i) ==> orphan_kind(true, name, Some(true)) == Orphan::Alive,
        spells_java_at(name, i) ==> orphan_kind(true, name, None) == Orphan::Alive,
        orphan_kind(true, name, Some(false)) == Orphan::Stale,
        orphan_kind(false, name, cwd_matches) == Orphan::Stale,
        (forall|k: int| !spells_java_at(name, k)) ==> orphan_kind(true, name, cwd_matches)
            == Orphan::Stale,
{
    if spells_java_at(name, i) {
        assert(java_at(name, i));
    }
    if forall|k: int| !spells_java_at(name, k) {
        assert forall|k: int| !java_at(name, k) by {
            assert(!spells_java_at(name, k));
        }
    }
}

/// Classifies the process named in the pid file.
pub fn classify(found: bool, name: &str, cwd_matches: Option<bool>) -> (o: Orphan)
    ensures
        o == orphan_kind(found, name@, cwd_matches),
{
    if !found {
        return Orphan::Stale;
    }
    let v = chars_of(name);
    let n = v.len();
    let mut i: usize = 0;
    let mut java = false;
    while n >= 4 && i <= n - 4
        invariant
            n == v@.len(),
            v@ == name@,
            !java ==> forall|k: int| 0 <= k < i ==> !java_at(v@, k),
            java ==> names_java(v@),
        decreases n - i,
    {
        if (v[i] == 'j' || v[i] == 'J') && (v[i + 1] == 'a' || v[i + 1] == 'A') && (v[i + 2] == 'v'
            || v[i + 2] == 'V') && (v[i + 3] == 'a' || v[i + 3] == 'A') {
            assert(java_at(v@, i as int));
            java = true;
        }
        i = i + 1;
    }
    if !java {
        assert forall|k: int| !java_at(v@, k) by {
            if 0 <= k < i {
            }
        }
        return Orphan::Stale;
    }
    match cwd_matches {
        Some(true) => Orphan::Alive,
        Some(false) => Orphan::Stale,
        None => Orphan::Alive,
    }
}

/// The pid worth looking at: the one the pid file holds. A missing or
/// unreadable pid file means a clean start.
pub fn pid_to_check(read: &Result<Option<u32>, Error>) -> (r: Option<u32>)
    ensures
        r == match read {
            Ok(Some(pid)) => Some(*pid),
            _ => None,
        },
{
    match read {
        Ok(Some(pid)) => Some(*pid),
        _ => None,
    }
}

/// What recovery does with the process named in the pid file.
#[derive(Debug, Clone, Copy, PartialEq, Eq, Structural)]
pub enum OrphanAction {
    /// Remove the stale pid file and start.
    RemoveStalePidfile,
    /// Refuse to start: an orphan holds the server.
    Refuse,
    /// Kill the orphan, remove the pid file and start.
    Kill,
}

/// What recovery does with what it found, under the configured policy.
pub open spec fn action_for(orphan: Orphan, policy: OrphanPolicy) -> OrphanAction {
    match (orphan, policy) {
        (Orphan::Stale, _) => OrphanAction::RemoveStalePidfile,
        (Orphan::Alive, OrphanPolicy::Refuse) => OrphanAction::Refuse,
        (Orphan::Alive, OrphanPolicy::Kill) => OrphanAction::Kill,
    }
}

/// Stale pid files are removed; a live orphan is refused or killed as the
/// policy says.
pub fn orphan_action(orphan: Orphan, policy: OrphanPolicy) -> (a: OrphanAction)
    ensures
        a == action_for(orphan, policy),
{
    match (orphan, policy) {
        (Orphan::Stale, _) => OrphanAction::RemoveStalePidfile,
        (Orphan::Alive, OrphanPolicy::Refuse) => OrphanAction::Refuse,
        (Orphan::Alive, OrphanPolicy::Kill) => OrphanAction::Kill,
    }
}

/// The result of recovery once its action has been carried out: only a
/// refusal keeps the daemon from starting, and it explains itself; after a
/// stale pid file is removed, or an orphan is killed (whether or not the kill
/// worked, which is only reported), the daemon starts.
pub fn recovery_outcome(action: OrphanAction, pid: u32, working_dir: &str, pidfile: &str) -> (r:
    Result<(), String>)
    ensures
        r is Err <==> action == OrphanAction::Refuse,
        r matches Err(m) ==> m@ == refusal_text(pid, working_dir@, pidfile@),
{
    match action {
        OrphanAction::Refuse => Err(refusal_message(pid, working_dir, pidfile)),
        _ => Ok(()),
    }
}

/// Recovery stops the daemon only when the policy is to refuse and a live
/// orphan was found; with no pid file, a stale one, or an orphan that is
/// killed, the daemon goes on starting.
pub proof fn lemma_recovery_refuses_only_live_orphans(orphan: Orphan, policy: OrphanPolicy)
    ensures
        action_for(orphan, policy) == OrphanAction::Refuse <==> (orphan == Orphan::Alive && policy
            == OrphanPolicy::Refuse),
{
}

/// The pid file's path, as shown to the user.
pub fn pidfile_display(working_dir: &str) -> (p: String)
    ensures
        p@ == pid_path(working_dir@),
{
    path(working_dir)
}

/// The error that explains a refusal to start.
pub open spec fn refusal_text(pid: u32, working_dir: Seq<char>, pidfile: Seq<char>) -> Seq<char> {
    "orphan jvm pid "@ + decimal(pid as nat) + " in "@ + working_dir + "\nkill it or delete "@
        + pidfile + ", or set [daemon] orphan_policy = \"kill\""@
}

/// The error that explains a refusal to start.
pub fn refusal_message(pid: u32, working_dir: &str, pidfile: &str) -> (s: String)
    ensures
        s@ == refusal_text(pid, working_dir@, pidfile@),
{
    let mut s = copy_str("orphan jvm pid ");
    push_decimal(&mut s, pid as u64);
    push_str(&mut s, " in ");
    push_str(&mut s, working_dir);
    push_str(&mut s, "\nkill it or delete ");
    push_str(&mut s, pidfile);
    push_str(&mut s, ", or set [daemon] orphan_policy = \"kill\"");
    s
}

// ---------------------------------------------------------------------------
// Killing an orphan
// ---------------------------------------------------------------------------
/// Milliseconds an orphan is given to exit after `SIGTERM`.
pub const GRACEFUL_KILL_MS: u64 = 30000;

/// Milliseconds an orphan is given to exit after a forced kill.
pub const FORCED_KILL_MS: u64 = 5000;

/// Milliseconds between reports that the orphan is still alive.
pub const REPORT_EVERY_MS: u64 = 5000;

/// The phase of a kill.
#[derive(Debug, Clone, Copy, PartialEq, Eq, Structural)]
pub enum KillPhase {
    /// `SIGTERM` was sent.
    Graceful,
    /// A forced kill was sent.
    Forced,
}

/// What the kill loop does next.
#[derive(Debug, Clone, Copy, PartialEq, Eq, Structural)]
pub enum KillStep {
    /// The process is gone: the kill succeeded.
    Exited,
    /// Sleep this many milliseconds, then look again.
    Sleep(u64),
    /// The graceful deadline passed: send a forced kill.
    Escalate,
    /// The forced deadline passed: the process ignored the kill.
    GiveUp,
}

/// The next step of the kill loop, `elapsed_ms` into `phase`, with the
/// process `alive` or not: a process that is gone ends the loop; otherwise
/// the loop sleeps until the phase's deadline, then escalates (after
/// `SIGTERM`) or gives up (after a forced kill).
pub open spec fn kill_decision(phase: KillPhase, elapsed_ms: u64, alive: bool) -> KillStep {
    if !alive {
        KillStep::Exited
    } else {
        match phase {
            KillPhase::Graceful => if elapsed_ms >= GRACEFUL_KILL_MS {
                KillStep::Escalate
            } else {
                KillStep::Sleep(200)
            },
            KillPhase::Forced => if elapsed_ms >= FORCED_KILL_MS {
                KillStep::GiveUp
            } else {
                KillStep::Sleep(100)
            },
        }
    }
}

/// The kill loop's next step (see [`kill_decision`]).
pub fn kill_step(phase: KillPhase, elapsed_ms: u64, alive: bool) -> (s: KillStep)
    ensures
        s == kill_decision(phase, elapsed_ms, alive),
{
    if !alive {
        return KillStep::Exited;
    }
    match phase {
        KillPhase::Graceful => if elapsed_ms >= GRACEFUL_KILL_MS {
            KillStep::Escalate
        } else {
            KillStep::Sleep(200)
        },
        KillPhase::Forced => if elapsed_ms >= FORCED_KILL_MS {
            KillStep::GiveUp
        } else {
            KillStep::Sleep(100)
        },
    }
}

/// What the kill does on looking the process up before a signal.
#[derive(Debug, Clone, Copy, PartialEq, Eq, Structural)]
pub enum SignalLook {
    /// The process is already gone: no signal is sent and the kill has
    /// succeeded.
    AlreadyGone,
    /// The process is there: send the phase's signal.
    Signal,
}

/// Before each signal (`SIGTERM`, then the forced kill) the process is looked
/// up again; one that is already gone is not signalled, and the kill ends
/// successfully.
pub fn before_signal(alive: bool) -> (r: SignalLook)
    ensures
        r == if alive {
            SignalLook::Signal
        } else {
            SignalLook::AlreadyGone
        },
{
    if alive {
        SignalLook::Signal
    } else {
        SignalLook::AlreadyGone
    }
}

/// Whether it is time to report that the orphan is still alive.
pub fn should_report_alive(ms_since_last_report: u64) -> (r: bool)
    ensures
        r == (ms_since_last_report >= REPORT_EVERY_MS),
{
    ms_since_last_report >= REPORT_EVERY_MS
}

/// `<prefix><pid><suffix>`.
pub open spec fn pid_text(prefix: Seq<char>, pid: u32, suffix: Seq<char>) -> Seq<char> {
    prefix + decimal(pid as nat) + suffix
}

fn pid_message(prefix: &str, pid: u32, suffix: &str) -> (s: String)
    ensures
        s@ == pid_text(prefix@, pid, suffix@),
{
    let mut s = copy_str(prefix);
    push_decimal(&mut s, pid as u64);
    push_str(&mut s, suffix);
    s
}

/// The error of a `SIGTERM` that could not be sent.
pub fn sigterm_failed(pid: u32) -> (s: String)
    ensures
        s@ == pid_text("SIGTERM failed for pid "@, pid, ""@),
{
    pid_message("SIGTERM failed for pid ", pid, "")
}

/// The error of a forced kill that could not be sent.
pub fn force_kill_failed(pid: u32) -> (s: String)
    ensures
        s@ == pid_text("force kill failed for pid "@, pid, ""@),
{
    pid_message("force kill failed for pid ", pid, "")
}

/// The error of a process that outlived its forced kill.
pub fn ignored_force_kill(pid: u32) -> (s: String)
    ensures
        s@ == pid_text("pid "@, pid, " ignored force kill"@),
{
    pid_message("pid ", pid, " ignored force kill")
}

/// A kill never waits without bound: the loop only sleeps while the process
/// is alive and its phase's deadline has not passed, and each sleep is short.
pub proof fn lemma_kill_loop_is_bounded(phase: KillPhase, elapsed_ms: u64, alive: bool)
    ensures
        kill_decision(phase, elapsed_ms, alive) matches KillStep::Sleep(ms) ==> alive && ms <= 200
            && elapsed_ms < GRACEFUL_KILL_MS,
        !alive ==> kill_decision(phase, elapsed_ms, alive) is Exited,
        phase == KillPhase::Forced && alive && elapsed_ms >= FORCED_KILL_MS ==> kill_decision(
            phase,
            elapsed_ms,
            alive,
        ) is GiveUp,
{
}

} // verus!
