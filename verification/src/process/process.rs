//! The decisions of the supervisor around the JVM: the command line it is
//! started with, the commands written to its standard input, how its output
//! lines become log entries, and how its exit and readiness move the state.
use vstd::prelude::*;
use crate::config::McConfig;
use crate::process::error::{io_failure, io_kind_of, Error, IoErrorKind, IoFailure};
use crate::process::logs::{no_newline, opt_log_view, parse_line, EventView, McLog, McLogParser, McLogView, ServerEvent};
use crate::process::state::{jvm_alive, running, McVersion, ServerState};
use crate::text::{
    all_ascii_digits, chars_of, copy_str, has_white_space, is_white_space, is_whitespace,
    is_year_field, push_str, two_digits_at,
};

verus! {

broadcast use vstd::string::group_string_axioms;

// ---------------------------------------------------------------------------
// Starting
// ---------------------------------------------------------------------------
/// What is written to `eula.txt` to accept the EULA.
pub fn eula_contents() -> (s: String)
    ensures
        s@ == "eula=true\n"@,
{
    copy_str("eula=true\n")
}

/// Where the readiness probe looks for the game port when the log never
/// says the server is ready (vanilla servers and unknown loaders).
pub fn healthcheck_address() -> (s: String)
    ensures
        s@ == "127.0.0.1:25565"@,
{
    copy_str("127.0.0.1:25565")
}

/// The state published when a start fails before the JVM is spawned: a
/// missing jar leaves the server `Stopped`; other failures change nothing.
pub fn state_after_start_error(e: &Error) -> (r: Option<ServerState>)
    ensures
        r == if e is JarFileDoesNotExist {
            Some(ServerState::Stopped)
        } else {
            None
        },
{
    match e {
        Error::JarFileDoesNotExist => Some(ServerState::Stopped),
        _ => None,
    }
}

/// The state published once the JVM has been spawned: the server is
/// starting until it is seen to be ready.
pub fn state_after_spawn() -> (s: ServerState)
    ensures
        s == ServerState::Starting,
{
    ServerState::Starting
}

// ---------------------------------------------------------------------------
// The JVM's command line
// ---------------------------------------------------------------------------
/// The JVM's arguments: heap sizes, the extra arguments, the jar, and
/// the flag `nogui_flag` when `nogui` is configured.
pub open spec fn jvm_args(
    xms: Seq<char>,
    xmx: Seq<char>,
    extra: Seq<Seq<char>>,
    jar: Seq<char>,
    nogui: bool,
    nogui_flag: Seq<char>,
) -> Seq<Seq<char>> {
    seq!["-Xms"@ + xms, "-Xmx"@ + xmx] + extra + seq!["-jar"@, jar] + if nogui {
        seq![nogui_flag]
    } else {
        Seq::empty()
    }
}

/// Every configured piece reaches the JVM, each in its place: the two heap
/// sizes first, then every extra argument in order, then `-jar` and the jar,
/// and the console flag last, when asked for.
pub proof fn lemma_jvm_args_carry_every_setting(
    xms: Seq<char>,
    xmx: Seq<char>,
    extra: Seq<Seq<char>>,
    jar: Seq<char>,
    nogui: bool,
    nogui_flag: Seq<char>,
)
    ensures
        jvm_args(xms, xmx, extra, jar, nogui, nogui_flag).len() == extra.len() + 4 + (if nogui {
            1int
        } else {
            0int
        }),
        jvm_args(xms, xmx, extra, jar, nogui, nogui_flag)[0] == "-Xms"@ + xms,
        jvm_args(xms, xmx, extra, jar, nogui, nogui_flag)[1] == "-Xmx"@ + xmx,
        forall|i: int|
            0 <= i < extra.len() ==> #[trigger] jvm_args(xms, xmx, extra, jar, nogui, nogui_flag)[2
                + i] == extra[i],
        jvm_args(xms, xmx, extra, jar, nogui, nogui_flag)[2 + extra.len() as int] == "-jar"@,
        jvm_args(xms, xmx, extra, jar, nogui, nogui_flag)[3 + extra.len() as int] == jar,
        nogui ==> jvm_args(xms, xmx, extra, jar, nogui, nogui_flag)[4 + extra.len() as int] == nogui_flag,
{
}

/// The views of a list of strings.
pub open spec fn strings_view(v: Seq<String>) -> Seq<Seq<char>> {
    v.map_values(|s: String| s@)
}

/// The JVM's arguments for the given heap sizes, extra arguments, jar and
/// flag that turns the graphical console off, given as `nogui_flag`.
pub fn jvm_argv(
    xms: &str,
    xmx: &str,
    extra: &Vec<String>,
    jar: &str,
    nogui: bool,
    nogui_flag: &str,
) -> (args: Vec<String>)
    ensures
        strings_view(args@) == jvm_args(xms@, xmx@, strings_view(extra@), jar@, nogui, nogui_flag@),
{
    let mut args: Vec<String> = Vec::new();
    let mut a = copy_str("-Xms");
    push_str(&mut a, xms);
    args.push(a);
    let mut b = copy_str("-Xmx");
    push_str(&mut b, xmx);
    args.push(b);
    let ghost head = strings_view(args@);
    let mut i: usize = 0;
    while i < extra.len()
        invariant
            i <= extra@.len(),
            strings_view(args@) == head + strings_view(extra@).take(i as int),
        decreases extra.len() - i,
    {
        let ghost prev = args@;
        args.push(copy_str(&extra[i]));
        assert(strings_view(args@) =~= strings_view(prev).push(extra@[i as int]@));
        assert(strings_view(extra@).take(i + 1) =~= strings_view(extra@).take(i as int).push(
            extra@[i as int]@,
        ));
        i = i + 1;
    }
    assert(strings_view(extra@).take(extra@.len() as int) == strings_view(extra@));
    let ghost middle = args@;
    args.push(copy_str("-jar"));
    args.push(copy_str(jar));
    let ghost with_jar = args@;
    assert(strings_view(with_jar) =~= strings_view(middle) + seq!["-jar"@, jar@]);
    if nogui {
        args.push(copy_str(nogui_flag));
        assert(strings_view(args@) =~= strings_view(with_jar) + seq![nogui_flag@]);
    } else {
        assert(strings_view(args@) =~= strings_view(with_jar) + Seq::<Seq<char>>::empty());
    }
    assert(strings_view(args@) =~= jvm_args(
        xms@,
        xmx@,
        strings_view(extra@),
        jar@,
        nogui,
        nogui_flag@,
    ));
    args
}

/// Builds the argv passed to the JVM for the jar at `jar_path`; the `nogui`
/// setting adds the `-nogui` flag.
pub fn build_jvm_args(cfg: &McConfig, jar_path: &str) -> (args: Vec<String>)
    ensures
        strings_view(args@) == jvm_args(
            cfg.java.xms@,
            cfg.java.xmx@,
            strings_view(cfg.java.extra_args@),
            jar_path@,
            cfg.server.nogui,
            "-nogui"@,
        ),
{
    jvm_argv(&cfg.java.xms, &cfg.java.xmx, &cfg.java.extra_args, jar_path, cfg.server.nogui, "-nogui")
}

// ---------------------------------------------------------------------------
// Commands written to the server
// ---------------------------------------------------------------------------
/// `s` without its line feeds.
pub open spec fn without_newlines(s: Seq<char>) -> Seq<char>
    decreases s.len(),
{
    if s.len() == 0 {
        s
    } else if s.last() == '\n' {
        without_newlines(s.drop_last())
    } else {
        without_newlines(s.drop_last()).push(s.last())
    }
}

/// What is written to the server's standard input for `cmd`: the command
/// with its line feeds removed, ended by one line feed.
pub open spec fn command_text(cmd: Seq<char>) -> Seq<char> {
    without_newlines(cmd).push('\n')
}

/// The console command that grants or revokes operator rights.
pub open spec fn op_text(op: bool, player: Seq<char>) -> Seq<char> {
    (if op {
        "op"@
    } else {
        "deop"@
    }) + seq![' '] + player
}

/// The bytes to write for `cmd`, or `WriteWhileNotRunningError` when no
/// server is running in `state`.
pub fn command_line(state: ServerState, cmd: &str) -> (r: Result<String, Error>)
    ensures
        running(state) <==> r is Ok,
        r matches Ok(line) ==> line@ == command_text(cmd@),
        !running(state) ==> r matches Err(Error::WriteWhileNotRunningError),
{
    if !state.is_running() {
        return Err(Error::WriteWhileNotRunningError);
    }
    let v = chars_of(cmd);
    let mut out: Vec<char> = Vec::new();
    let mut i: usize = 0;
    while i < v.len()
        invariant
            i <= v@.len(),
            out@ == without_newlines(v@.take(i as int)),
        decreases v.len() - i,
    {
        assert(v@.take(i + 1).drop_last() == v@.take(i as int));
        if v[i] != '\n' {
            out.push(v[i]);
        }
        i = i + 1;
    }
    assert(v@.take(v@.len() as int) == v@);
    out.push('\n');
    assert(out@.subrange(0, out@.len() as int) == out@);
    Ok(crate::text::string_of(&out, 0, out.len()))
}

/// The command that `stop` writes, or `None` when the server is already
/// stopped and there is nothing to do.
pub fn stop_command(state: ServerState) -> (r: Option<Result<String, Error>>)
    ensures
        state == ServerState::Stopped <==> r is None,
        r matches Some(c) ==> (running(state) <==> c is Ok),
        r matches Some(Ok(line)) ==> line@ == command_text("stop"@),
        r matches Some(Err(e)) ==> e is WriteWhileNotRunningError,
{
    if state == ServerState::Stopped {
        None
    } else {
        Some(command_line(state, "stop"))
    }
}

/// The command that grants (`op`) or revokes operator rights of
/// `player_name`. A name with white space in it is refused before anything
/// is written, since it would smuggle a second argument into the command.
pub fn op_command(state: ServerState, op: bool, player_name: &str) -> (r: Result<String, Error>)
    ensures
        has_white_space(player_name@) ==> (r matches Err(e) && e is WriteStdinFailed && io_kind_of(e)
            == Some(IoErrorKind::InvalidInput)),
        !has_white_space(player_name@) && !running(state) ==> r matches Err(
            Error::WriteWhileNotRunningError,
        ),
        !has_white_space(player_name@) && running(state) ==> (r matches Ok(line) && line@
            == command_text(op_text(op, player_name@))),
{
    let v = chars_of(player_name);
    let mut i: usize = 0;
    while i < v.len()
        invariant
            i <= v@.len(),
            v@ == player_name@,
            forall|k: int| 0 <= k < i ==> !is_white_space(#[trigger] v@[k]),
        decreases v.len() - i,
    {
        if is_whitespace(v[i]) {
            return Err(
                io_failure(
                    IoFailure::WriteStdin,
                    IoErrorKind::InvalidInput,
                    "Player name cannot contain whitespace",
                ),
            );
        }
        i = i + 1;
    }
    let mut text = if op {
        copy_str("op")
    } else {
        copy_str("deop")
    };
    push_str(&mut text, " ");
    proof {
        reveal_strlit(" ");
    }
    push_str(&mut text, player_name);
    assert(text@ =~= op_text(op, player_name@));
    command_line(state, &text)
}

proof fn lemma_without_newlines_is_filter(s: Seq<char>, keep: spec_fn(char) -> bool)
    requires
        forall|c: char| #[trigger] keep(c) <==> c != '\n',
    ensures
        without_newlines(s) == s.filter(keep),
    decreases s.len(),
{
    reveal(Seq::filter);
    if s.len() > 0 {
        lemma_without_newlines_is_filter(s.drop_last(), keep);
        assert(keep(s.last()) <==> s.last() != '\n');
    }
}

/// What is written for a command keeps every character of it except line
/// feeds, in their order, and ends with one line feed.
pub proof fn lemma_command_keeps_all_but_line_feeds(cmd: Seq<char>)
    ensures
        command_text(cmd) == cmd.filter(|c: char| c != '\n').push('\n'),
{
    lemma_without_newlines_is_filter(cmd, |c: char| c != '\n');
}

proof fn lemma_without_newlines_keeps(s: Seq<char>)
    requires
        forall|k: int| 0 <= k < s.len() ==> s[k] != '\n',
    ensures
        without_newlines(s) == s,
    decreases s.len(),
{
    if s.len() > 0 {
        lemma_without_newlines_keeps(s.drop_last());
        assert(s.drop_last().push(s.last()) =~= s);
    }
}

/// A command without line feeds is written as it is, followed by one line
/// feed.
pub proof fn lemma_command_without_line_feeds_is_unchanged(cmd: Seq<char>)
    requires
        forall|k: int| 0 <= k < cmd.len() ==> cmd[k] != '\n',
    ensures
        command_text(cmd) == cmd.push('\n'),
{
    lemma_without_newlines_keeps(cmd);
}

/// The operator command for a name without white space is `op <name>` or
/// `deop <name>` and a line feed: the name reaches the server exactly as
/// given, every character of it.
pub proof fn lemma_op_line_names_the_player(op: bool, name: Seq<char>)
    requires
        forall|k: int| 0 <= k < name.len() ==> !is_white_space(name[k]),
    ensures
        command_text(op_text(op, name)) == (if op {
            "op "@
        } else {
            "deop "@
        }) + name + seq!['\n'],
{
    reveal_strlit("op");
    reveal_strlit("deop");
    reveal_strlit("op ");
    reveal_strlit("deop ");
    let t = op_text(op, name);
    assert forall|k: int| 0 <= k < t.len() implies t[k] != '\n' by {
        let a = if op {
            "op"@
        } else {
            "deop"@
        };
        if k >= a.len() + 1 {
            assert(t[k] == name[k - a.len() - 1]);
            assert(is_white_space('\n'));
        }
    }
    lemma_command_without_line_feeds_is_unchanged(t);
    assert(t.push('\n') =~= (if op {
        "op "@
    } else {
        "deop "@
    }) + name + seq!['\n']);
}

proof fn lemma_without_newlines_has_none(s: Seq<char>)
    ensures
        no_newline(without_newlines(s)),
    decreases s.len(),
{
    if s.len() > 0 {
        lemma_without_newlines_has_none(s.drop_last());
    }
}

/// Whatever the command, exactly one line reaches the server: the text
/// written ends in a line feed and holds no other.
pub proof fn lemma_command_is_one_line(cmd: Seq<char>)
    ensures
        command_text(cmd).last() == '\n',
        no_newline(command_text(cmd).drop_last()),
{
    lemma_without_newlines_has_none(cmd);
    assert(command_text(cmd).drop_last() == without_newlines(cmd));
}

// ---------------------------------------------------------------------------
// Output lines and state changes
// ---------------------------------------------------------------------------
/// The entry for a line of standard output that does not follow the log
/// grammar.
pub open spec fn raw_log(line: Seq<char>) -> McLogView {
    McLogView { timestamp: Seq::empty(), level: "RAW"@, message: line, event: EventView::Unknown }
}

/// The entry published for a line the server wrote to standard output.
pub fn stdout_log(line: String) -> (log: McLog)
    ensures
        log@ == match parse_line(line@) {
            Some(parsed) => parsed,
            None => raw_log(line@),
        },
{
    match McLogParser::parse(&line) {
        Some(parsed) => parsed,
        None => McLog {
            timestamp: String::new(),
            level: copy_str("RAW"),
            message: line,
            event: ServerEvent::Unknown,
        },
    }
}

/// The entry published for a line the server wrote to standard error at
/// `timestamp`.
pub fn stderr_log_at(timestamp: String, line: String) -> (log: McLog)
    ensures
        log@ == (McLogView {
            timestamp: timestamp@,
            level: "STDERR"@,
            message: line@,
            event: EventView::Unknown,
        }),
{
    McLog { timestamp, level: copy_str("STDERR"), message: line, event: ServerEvent::Unknown }
}

/// `-MM-DDTHH:MM:SS`: what follows the year in an RFC 3339 time.
pub open spec fn is_rfc3339_tail(t: Seq<char>) -> bool {
    &&& t.len() == 15
    &&& t[0] == '-' && two_digits_at(t, 1)
    &&& t[3] == '-' && two_digits_at(t, 4)
    &&& t[6] == 'T' && two_digits_at(t, 7)
    &&& t[9] == ':' && two_digits_at(t, 10)
    &&& t[12] == ':' && two_digits_at(t, 13)
}

/// The fraction of a second: nothing, or a dot and three, six or nine
/// digits.
pub open spec fn is_second_fraction(f: Seq<char>) -> bool {
    ||| f.len() == 0
    ||| (f.len() == 4 || f.len() == 7 || f.len() == 10) && f[0] == '.' && all_ascii_digits(
        f.drop_first(),
    )
}

/// An offset from UTC: a sign, two digits of hours, `:`, two digits of
/// minutes.
pub open spec fn is_utc_offset(o: Seq<char>) -> bool {
    &&& o.len() == 6
    &&& o[0] == '+' || o[0] == '-'
    &&& two_digits_at(o, 1) && o[3] == ':' && two_digits_at(o, 4)
}

/// `s` is an RFC 3339 time whose fraction of a second has `fl` characters.
pub open spec fn is_rfc3339_with_fraction(s: Seq<char>, fl: int) -> bool {
    let o = s.len() - 6;
    let e = o - fl;
    let y = e - 15;
    &&& y >= 4
    &&& is_year_field(s.take(y))
    &&& is_rfc3339_tail(s.subrange(y, e))
    &&& is_second_fraction(s.subrange(e, o))
    &&& is_utc_offset(s.subrange(o, s.len() as int))
}

/// An RFC 3339 time as chrono writes it with a numeric offset, such as
/// `2024-05-01T12:00:00.250+02:00`.
pub open spec fn is_rfc3339(s: Seq<char>) -> bool {
    ||| is_rfc3339_with_fraction(s, 0)
    ||| is_rfc3339_with_fraction(s, 4)
    ||| is_rfc3339_with_fraction(s, 7)
    ||| is_rfc3339_with_fraction(s, 10)
}

/// `chrono::Local::now().to_rfc3339()`: the current local time. chrono
/// writes the year (four digits for 0 to 9999, signed otherwise), `-MM-DDTHH:
/// MM:SS` in two-digit fields, the fraction of a second with 0, 3, 6 or 9
/// digits, and the offset as `+HH:MM` or `-HH:MM`. Which time it is depends on
/// the clock and the time zone, and is not stated.
#[verifier::external_body]
fn local_now_rfc3339() -> (r: String)
    ensures
        is_rfc3339(r@),
{
    chrono::Local::now().to_rfc3339()
}

/// The entry published for a line the server wrote to standard error now.
pub fn stderr_log(line: String) -> (log: McLog)
    ensures
        is_rfc3339(log.timestamp@),
        log.level@ == "STDERR"@,
        log.message@ == line@,
        log.event@ == EventView::Unknown,
{
    stderr_log_at(local_now_rfc3339(), line)
}

/// The version metadata announced by `event`, if it announces one.
pub open spec fn announced_version(event: EventView) -> Option<(Seq<char>, Seq<char>)> {
    match event {
        EventView::Starting { mc_version, fabric_version } => Some((mc_version, fabric_version)),
        _ => None,
    }
}

/// The only log-driven change of state: a `Ready` line moves a `Starting`
/// server to `Running`. Every other change is made by `start`, `stop` or the
/// reaper.
pub open spec fn log_driven_state(current: ServerState, event: EventView) -> Option<ServerState> {
    if current == ServerState::Starting && event is Ready {
        Some(ServerState::Running)
    } else {
        None
    }
}

/// What a parsed event does: the version to publish (for a loader start) and
/// the state to move to (only `Starting → Running`, on `Ready`).
pub fn apply_event(current: ServerState, event: &ServerEvent) -> (r: (
    Option<McVersion>,
    Option<ServerState>,
))
    ensures
        match (r.0, announced_version(event@)) {
            (Some(v), Some((mc, fabric))) => v.mc_version@ == mc && v.fabric_version@ == fabric,
            (None, None) => true,
            _ => false,
        },
        r.1 == log_driven_state(current, event@),
{
    let version = match event {
        ServerEvent::Starting { mc_version, fabric_version } => Some(
            McVersion { mc_version: mc_version.clone(), fabric_version: fabric_version.clone() },
        ),
        _ => None,
    };
    let next = match event {
        ServerEvent::Ready(_) => if current == ServerState::Starting {
            Some(ServerState::Running)
        } else {
            None
        },
        _ => None,
    };
    (version, next)
}

/// A log line never starts, stops or ends the server: loader-start and stop
/// lines change nothing, and the only state a line can lead to is `Running`,
/// from `Starting`.
pub proof fn lemma_log_only_decides_readiness(current: ServerState, event: EventView)
    ensures
        log_driven_state(current, event) is Some ==> current == ServerState::Starting && event is Ready
            && log_driven_state(current, event) == Some(ServerState::Running),
        event is Starting ==> log_driven_state(current, event) is None,
        event is Stopping ==> log_driven_state(current, event) is None,
{
}

/// Readiness is believed whatever the start-up time says: a `Ready` event
/// moves a `Starting` server to `Running` for every time text, and a log line
/// moves the server at all exactly when it is a `Ready` seen while
/// `Starting`.
pub proof fn lemma_ready_always_promotes_starting(t: Seq<char>, current: ServerState, event: EventView)
    ensures
        log_driven_state(ServerState::Starting, EventView::Ready(t)) == Some(ServerState::Running),
        log_driven_state(current, event) is Some <==> (current == ServerState::Starting
            && event is Ready),
{
}

/// The state a stop publishes once `stop` has been written: a live server is
/// `Stopping` until its process exits. Any other state is left alone, since
/// the process may have exited meanwhile.
pub fn state_after_stop_sent(current: ServerState) -> (r: Option<ServerState>)
    ensures
        r == if running(current) {
            Some(ServerState::Stopping)
        } else {
            None
        },
{
    if current.is_running() {
        Some(ServerState::Stopping)
    } else {
        None
    }
}

/// Whether a start has a JVM to spawn: only when none is alive, from
/// `Stopped` or `Crashed`. While one is starting, running or stopping, a
/// start does nothing, so that no second JVM is spawned on top of it.
pub fn start_is_needed(current: ServerState) -> (r: bool)
    ensures
        r == !jvm_alive(current),
        r <==> (current == ServerState::Stopped || current == ServerState::Crashed),
{
    current == ServerState::Stopped || current == ServerState::Crashed
}

/// Whether the readiness probe is waiting for this event.
pub fn is_ready_event(event: &ServerEvent) -> (r: bool)
    ensures
        r == event@ is Ready,
{
    match event {
        ServerEvent::Ready(_) => true,
        _ => false,
    }
}

/// The state the server is in once its process has exited: `Stopped` after a
/// clean exit, `Crashed` otherwise.
pub fn exit_state(exited_successfully: bool) -> (s: ServerState)
    ensures
        s == if exited_successfully {
            ServerState::Stopped
        } else {
            ServerState::Crashed
        },
{
    if exited_successfully {
        ServerState::Stopped
    } else {
        ServerState::Crashed
    }
}

/// One thing the reaper does once the JVM has exited.
#[derive(Debug, Clone, Copy, PartialEq, Eq, Structural)]
pub enum ExitStep {
    /// Forget the version the server announced.
    ClearVersion,
    /// Publish the final state.
    Publish(ServerState),
    /// Remove the pid file.
    RemovePidFile,
}

/// What the reaper does, in order, when the JVM exits: it forgets the
/// version, publishes `Stopped` after a clean exit and `Crashed` otherwise,
/// and then removes the pid file.
pub open spec fn exit_script(exited_successfully: bool) -> Seq<ExitStep> {
    seq![
        ExitStep::ClearVersion,
        ExitStep::Publish(
            if exited_successfully {
                ServerState::Stopped
            } else {
                ServerState::Crashed
            },
        ),
        ExitStep::RemovePidFile,
    ]
}

/// The reaper's steps once the JVM has exited.
pub fn exit_steps(exited_successfully: bool) -> (v: Vec<ExitStep>)
    ensures
        v@ == exit_script(exited_successfully),
{
    let mut v: Vec<ExitStep> = Vec::new();
    v.push(ExitStep::ClearVersion);
    v.push(ExitStep::Publish(exit_state(exited_successfully)));
    v.push(ExitStep::RemovePidFile);
    assert(v@ =~= exit_script(exited_successfully));
    v
}

/// The exit is the process's own: it always ends in a terminal state, the
/// version is forgotten before the state is published, and the pid file is
/// removed only after it, so nobody sees a terminal state with a stale
/// version, nor a pid file without a live process behind a published state.
pub proof fn lemma_exit_order(exited_successfully: bool)
    ensures
        exit_script(exited_successfully)[0] == ExitStep::ClearVersion,
        exit_script(exited_successfully)[1] matches ExitStep::Publish(s) && !jvm_alive(s) && (s
            == ServerState::Crashed <==> !exited_successfully),
        exit_script(exited_successfully)[2] == ExitStep::RemovePidFile,
        exit_script(exited_successfully).len() == 3,
{
}

/// The readiness probe's update: a server still `Starting` becomes
/// `Running`; any other state (a crash or a stop that came first) is left
/// alone.
pub fn promote_when_ready(state: ServerState) -> (r: Option<ServerState>)
    ensures
        state == ServerState::Starting <==> r is Some,
        r is Some ==> r == Some(ServerState::Running),
{
    if state == ServerState::Starting {
        Some(ServerState::Running)
    } else {
        None
    }
}

/// The pid whose CPU and memory use are read, when a server is running.
pub fn metrics_pid(state: ServerState, process_id: Option<u32>) -> (r: Option<u32>)
    ensures
        r == if running(state) {
            process_id
        } else {
            None
        },
{
    if !state.is_running() {
        return None;
    }
    process_id
}

} // verus!
