//! Decisions of the first-generation supervisor: the states it publishes
//! while starting and stopping, its log-driven state machine with save
//! tracking, the commands it writes, and the script and names of its hot
//! backups.
use vstd::prelude::*;
use crate::legacy::config::Config;
use crate::legacy::state::ServerState;
use crate::process::logs::{EventView, ServerEvent};
use crate::process::process::{jvm_args, jvm_argv, strings_view};
use crate::text::{copy_str, is_year_field, push_char, push_str, two_digits_at};

verus! {

broadcast use vstd::string::group_string_axioms;

/// A JVM is alive in this state.
pub open spec fn active(state: ServerState) -> bool {
    state == ServerState::Running || state == ServerState::Starting || state == ServerState::Loading
}

/// Whether a JVM is alive (`Running`, `Starting` or `Loading`).
pub fn is_running(state: ServerState) -> (r: bool)
    ensures
        r == active(state),
{
    match state {
        ServerState::Running | ServerState::Starting | ServerState::Loading => true,
        _ => false,
    }
}

/// The reaction to a log event: the state to move to, and whether a pending
/// save is now confirmed. `Ready` ends loading, a stop line always means
/// stopping, and a save is tracked from `Running` to `Saving` and back.
pub open spec fn reaction(current: ServerState, event: EventView) -> (Option<ServerState>, bool) {
    match event {
        EventView::Ready(_) => if current == ServerState::Loading {
            (Some(ServerState::Running), false)
        } else {
            (None, false)
        },
        EventView::Stopping => (Some(ServerState::Stopping), false),
        EventView::Saving => if current == ServerState::Running {
            (Some(ServerState::Saving), false)
        } else {
            (None, false)
        },
        EventView::Saved => if current == ServerState::Saving {
            (Some(ServerState::Running), true)
        } else {
            (None, false)
        },
        _ => (None, false),
    }
}

/// How the log reader reacts to one parsed event.
pub fn react(current: ServerState, event: &ServerEvent) -> (r: (Option<ServerState>, bool))
    ensures
        r == reaction(current, event@),
{
    match event {
        ServerEvent::Ready(_) => if current == ServerState::Loading {
            (Some(ServerState::Running), false)
        } else {
            (None, false)
        },
        ServerEvent::Stopping => (Some(ServerState::Stopping), false),
        ServerEvent::Saving => if current == ServerState::Running {
            (Some(ServerState::Saving), false)
        } else {
            (None, false)
        },
        ServerEvent::Saved => if current == ServerState::Saving {
            (Some(ServerState::Running), true)
        } else {
            (None, false)
        },
        _ => (None, false),
    }
}

/// The state once the process has exited.
pub fn exit_state(exited_successfully: bool) -> (s: ServerState)
    ensures
        s == if exited_successfully {
            ServerState::Stopped
        } else {
            ServerState::Crashed
        },
{
    if exited_successfully {
        ServerState::Stopped
    } else {
        ServerState::Crashed
    }
}

/// A stop line means stopping in every state, a running one included, and
/// confirms no save; readiness ends loading and nothing else.
pub proof fn lemma_stop_line_always_stops(current: ServerState, t: Seq<char>)
    ensures
        reaction(current, EventView::Stopping) == (Some(ServerState::Stopping), false),
        reaction(ServerState::Loading, EventView::Ready(t)) == (Some(ServerState::Running), false),
        current != ServerState::Loading ==> reaction(current, EventView::Ready(t)) == (
            None::<ServerState>,
            false,
        ),
{
}

/// A save is confirmed exactly when a `Saving` server reports `Saved`, and
/// then it is back to `Running`; a save never starts on a server that is not
/// `Running`.
pub proof fn lemma_save_tracking(current: ServerState, event: EventView)
    ensures
        reaction(current, event).1 <==> (current == ServerState::Saving && event is Saved),
        reaction(current, event).1 ==> reaction(current, event).0 == Some(ServerState::Running),
        reaction(current, event).0 == Some(ServerState::Saving) ==> current == ServerState::Running,
{
}

// ---------------------------------------------------------------------------
// Starting and stopping
// ---------------------------------------------------------------------------
/// The state published as soon as a start is asked for, before the working
/// directory is prepared.
pub fn state_on_start() -> (s: ServerState)
    ensures
        s == ServerState::Starting,
{
    ServerState::Starting
}

/// The state published when the supervisor begins reading the new JVM's
/// output: the server loads until its log says it is ready.
pub fn state_when_output_opens() -> (s: ServerState)
    ensures
        s == ServerState::Loading,
{
    ServerState::Loading
}

/// The state published when the configured jar is missing.
pub fn state_when_jar_missing() -> (s: ServerState)
    ensures
        s == ServerState::Stopped,
{
    ServerState::Stopped
}

/// Builds the argv passed to the JVM for the jar at `jar_path`; this
/// supervisor turns the console off with the bare `nogui` argument.
pub fn build_jvm_args(cfg: &Config, jar_path: &str) -> (args: Vec<String>)
    ensures
        strings_view(args@) == jvm_args(
            cfg.java.xms@,
            cfg.java.xmx@,
            strings_view(cfg.java.extra_args@),
            jar_path@,
            cfg.server.nogui,
            "nogui"@,
        ),
{
    jvm_argv(&cfg.java.xms, &cfg.java.xmx, &cfg.java.extra_args, jar_path, cfg.server.nogui, "nogui")
}

/// What is written to the JVM's standard input for `cmd`: the command as
/// given, then a line feed.
pub fn command_line(cmd: &str) -> (s: String)
    ensures
        s@ == cmd@.push('\n'),
{
    let mut s = copy_str(cmd);
    push_char(&mut s, '\n');
    s
}

/// The line that `stop` writes, or `None` when there is nothing to do: only a
/// server that is `Stopped` is left alone (a crashed one is still sent the
/// command).
pub fn stop_command(state: ServerState) -> (r: Option<String>)
    ensures
        state == ServerState::Stopped <==> r is None,
        r matches Some(line) ==> line@ == "stop"@.push('\n'),
{
    if state == ServerState::Stopped {
        None
    } else {
        Some(command_line("stop"))
    }
}

/// A state in which the JVM is gone.
pub open spec fn down(state: ServerState) -> bool {
    state == ServerState::Stopped || state == ServerState::Crashed
}

/// Whether the wait after `stop` is over: the server stopped or crashed.
pub fn has_exited(state: ServerState) -> (r: bool)
    ensures
        r == down(state),
{
    state == ServerState::Stopped || state == ServerState::Crashed
}

// ---------------------------------------------------------------------------
// Hot backups
// ---------------------------------------------------------------------------
/// How long a backup waits for the game to confirm its save.
pub const SAVE_CONFIRMATION_SECS: u64 = 10;

/// One step of a backup.
#[derive(Debug, Clone, PartialEq)]
pub enum BackupStep {
    /// Write this console command.
    Command(String),
    /// Start listening for the game's save confirmation (before asking for
    /// the save, so that a quick confirmation is not missed).
    ListenForSave,
    /// Wait this many seconds at most for the confirmation; go on either way.
    AwaitSave(u64),
    /// Archive the working directory.
    Archive,
}

/// The mathematical content of a [`BackupStep`].
pub enum BackupStepView {
    Command(Seq<char>),
    ListenForSave,
    AwaitSave(u64),
    Archive,
}

impl View for BackupStep {
    type V = BackupStepView;

    open spec fn view(&self) -> BackupStepView {
        match self {
            BackupStep::Command(c) => BackupStepView::Command(c@),
            BackupStep::ListenForSave => BackupStepView::ListenForSave,
            BackupStep::AwaitSave(secs) => BackupStepView::AwaitSave(*secs),
            BackupStep::Archive => BackupStepView::Archive,
        }
    }
}

/// The views of a list of steps.
pub open spec fn steps_view(v: Seq<BackupStep>) -> Seq<BackupStepView> {
    v.map_values(|s: BackupStep| s@)
}

/// The backup script. While a JVM is alive the backup is hot: automatic
/// saving is switched off, a save is asked for and awaited, the directory is
/// archived, and automatic saving is switched back on. Otherwise the
/// directory is archived as it is.
pub open spec fn backup_script(hot: bool) -> Seq<BackupStepView> {
    if hot {
        seq![
            BackupStepView::Command("save-off"@),
            BackupStepView::ListenForSave,
            BackupStepView::Command("save-all"@),
            BackupStepView::AwaitSave(SAVE_CONFIRMATION_SECS),
            BackupStepView::Archive,
            BackupStepView::Command("save-on"@),
        ]
    } else {
        seq![BackupStepView::Archive]
    }
}

/// The steps of a backup taken while the server is in `state`.
pub fn backup_steps(state: ServerState) -> (v: Vec<BackupStep>)
    ensures
        steps_view(v@) == backup_script(active(state)),
{
    let mut v: Vec<BackupStep> = Vec::new();
    if is_running(state) {
        v.push(BackupStep::Command(copy_str("save-off")));
        v.push(BackupStep::ListenForSave);
        v.push(BackupStep::Command(copy_str("save-all")));
        v.push(BackupStep::AwaitSave(SAVE_CONFIRMATION_SECS));
        v.push(BackupStep::Archive);
        v.push(BackupStep::Command(copy_str("save-on")));
    } else {
        v.push(BackupStep::Archive);
    }
    assert(steps_view(v@) =~= backup_script(active(state)));
    v
}

/// `s` archives once, at `a`.
pub open spec fn archives_once_at(s: Seq<BackupStepView>, a: int) -> bool {
    &&& 0 <= a < s.len()
    &&& s[a] is Archive
    &&& forall|k: int| 0 <= k < s.len() && k != a ==> !(s[k] is Archive)
}

/// `s` switches automatic saving off before `a`.
pub open spec fn disables_saving_before(s: Seq<BackupStepView>, a: int) -> bool {
    exists|i: int| 0 <= i < a && s[i] == BackupStepView::Command("save-off"@)
}

/// `s` switches automatic saving back on after `a`.
pub open spec fn enables_saving_after(s: Seq<BackupStepView>, a: int) -> bool {
    exists|j: int| a < j < s.len() && s[j] == BackupStepView::Command("save-on"@)
}

/// A backup archives exactly once; automatic saving is switched back on
/// after the archive exactly when it was switched off before it, and it is
/// switched off only when a JVM is alive.
pub proof fn lemma_backup_restores_auto_save(hot: bool)
    ensures
        exists|a: int|
            #![trigger archives_once_at(backup_script(hot), a)]
            archives_once_at(backup_script(hot), a) && (disables_saving_before(backup_script(hot), a)
                <==> enables_saving_after(backup_script(hot), a)) && (disables_saving_before(
                backup_script(hot),
                a,
            ) <==> hot),
{
    reveal_strlit("save-off");
    reveal_strlit("save-all");
    reveal_strlit("save-on");
    let s = backup_script(hot);
    if hot {
        assert(s[0] == BackupStepView::Command("save-off"@));
        assert(s[5] == BackupStepView::Command("save-on"@));
        assert(archives_once_at(s, 4));
        assert(disables_saving_before(s, 4));
        assert(enables_saving_after(s, 4));
    } else {
        assert(archives_once_at(s, 0));
        assert(!disables_saving_before(s, 0));
        assert(!enables_saving_after(s, 0));
    }
}

/// A save seen from start to end leaves a running server running: `Saving`
/// takes it to `Saving`, and `Saved` brings it back to `Running` and confirms
/// the save that a backup waits for.
pub proof fn lemma_save_round_trip(saving: EventView, saved: EventView)
    requires
        saving is Saving,
        saved is Saved,
    ensures
        reaction(ServerState::Running, saving) == (Some(ServerState::Saving), false),
        reaction(ServerState::Saving, saved) == (Some(ServerState::Running), true),
{
}

/// The archive name for a backup taken at `stamp` (`%Y-%m-%d_%H-%M-%S`).
pub open spec fn backup_name(stamp: Seq<char>) -> Seq<char> {
    "backup_"@ + stamp + ".tar.gz"@
}

/// The archive name for a backup taken at `stamp`.
pub fn backup_file_name(stamp: &str) -> (s: String)
    ensures
        s@ == backup_name(stamp@),
{
    let mut s = copy_str("backup_");
    push_str(&mut s, stamp);
    push_str(&mut s, ".tar.gz");
    s
}

/// `-MM-DD_HH-MM-SS`: what follows the year in a backup's time stamp.
pub open spec fn is_stamp_tail(t: Seq<char>) -> bool {
    &&& t.len() == 15
    &&& t[0] == '-' && two_digits_at(t, 1)
    &&& t[3] == '-' && two_digits_at(t, 4)
    &&& t[6] == '_' && two_digits_at(t, 7)
    &&& t[9] == '-' && two_digits_at(t, 10)
    &&& t[12] == '-' && two_digits_at(t, 13)
}

/// A time written as `%Y-%m-%d_%H-%M-%S`: the year, then month, day, hour,
/// minute and second as two digits each. For the years 0 to 9999 that is
/// `DDDD-DD-DD_DD-DD-DD`.
pub open spec fn is_backup_stamp(s: Seq<char>) -> bool {
    &&& s.len() >= 19
    &&& is_year_field(s.take(s.len() - 15))
    &&& is_stamp_tail(s.skip(s.len() - 15))
}

/// `chrono::Local::now().format(pattern).to_string()`: the local time in the
/// pattern's notation. Only the pattern that backups use is accepted; chrono
/// panics on a pattern it cannot render. For it, chrono writes `%Y` as four
/// zero-padded digits for the years 0 to 9999 and with a sign otherwise, and
/// `%m`, `%d`, `%H`, `%M`, `%S` as two zero-padded digits each; which time it
/// is depends on the clock and the time zone, and is not stated.
#[verifier::external_body]
fn local_now_formatted(pattern: &str) -> (r: String)
    requires
        pattern@ == "%Y-%m-%d_%H-%M-%S"@,
    ensures
        is_backup_stamp(r@),
{
    chrono::Local::now().format(pattern).to_string()
}

/// The archive name for a backup taken now: `backup_`, the local time as
/// `%Y-%m-%d_%H-%M-%S`, and `.tar.gz`.
pub fn backup_file_name_now() -> (s: String)
    ensures
        exists|stamp: Seq<char>| #[trigger] is_backup_stamp(stamp) && s@ == backup_name(stamp),
{
    let stamp = local_now_formatted("%Y-%m-%d_%H-%M-%S");
    let s = backup_file_name(&stamp);
    assert(is_backup_stamp(stamp@) && s@ == backup_name(stamp@));
    s
}

} // verus!
