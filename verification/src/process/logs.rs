//! The grammar of the server's log lines.
//!
//! A line has the shape `[HH:MM:SS] [<thread>/<level>]: <message>`. The
//! message is then classified into a [`ServerEvent`]: lifecycle events are only
//! believed when they come from the thread that owns them, so that a player
//! cannot fake them by typing the same words in chat.
use vstd::prelude::*;
use crate::text::{
    chars_of, has_prefix, is_ascii_digit, is_white_space, is_whitespace, starts_with_at,
    string_of, two_digits_at,
};

verus! {

broadcast use vstd::string::group_string_axioms;

// ---------------------------------------------------------------------------
// Types
// ---------------------------------------------------------------------------
/// An event recognised in one log line.
#[derive(Debug, Clone, PartialEq)]
pub enum ServerEvent {
    /// "Loading Minecraft <mc> with Fabric Loader <fabric>" from the main thread.
    Starting { mc_version: String, fabric_version: String },
    /// "Done (<time>)!": the server finished loading.
    Ready(String),
    /// "Saving the game": a save began.
    Saving,
    /// "Saved the game": a save finished.
    Saved,
    /// "Automatic saving is now disabled".
    SaveOff,
    /// "Stopping the server".
    Stopping,
    /// "<author> msg": a chat message written by a player.
    Chat { author: String, msg: String },
    /// Any other line.
    Unknown,
}

/// The mathematical content of a [`ServerEvent`].
pub enum EventView {
    Starting { mc_version: Seq<char>, fabric_version: Seq<char> },
    Ready(Seq<char>),
    Saving,
    Saved,
    SaveOff,
    Stopping,
    Chat { author: Seq<char>, msg: Seq<char> },
    Unknown,
}

impl View for ServerEvent {
    type V = EventView;

    open spec fn view(&self) -> EventView {
        match self {
            ServerEvent::Starting { mc_version, fabric_version } => EventView::Starting {
                mc_version: mc_version@,
                fabric_version: fabric_version@,
            },
            ServerEvent::Ready(t) => EventView::Ready(t@),
            ServerEvent::Saving => EventView::Saving,
            ServerEvent::Saved => EventView::Saved,
            ServerEvent::SaveOff => EventView::SaveOff,
            ServerEvent::Stopping => EventView::Stopping,
            ServerEvent::Chat { author, msg } => EventView::Chat { author: author@, msg: msg@ },
            ServerEvent::Unknown => EventView::Unknown,
        }
    }
}

/// One structured log entry.
#[derive(Clone)]
pub struct McLog {
    pub timestamp: String,
    pub level: String,
    pub message: String,
    pub event: ServerEvent,
}

/// The mathematical content of a [`McLog`].
pub struct McLogView {
    pub timestamp: Seq<char>,
    pub level: Seq<char>,
    pub message: Seq<char>,
    pub event: EventView,
}

impl View for McLog {
    type V = McLogView;

    open spec fn view(&self) -> McLogView {
        McLogView {
            timestamp: self.timestamp@,
            level: self.level@,
            message: self.message@,
            event: self.event@,
        }
    }
}

/// The view of an optional log entry.
pub open spec fn opt_log_view(o: Option<McLog>) -> Option<McLogView> {
    match o {
        Some(l) => Some(l@),
        None => None,
    }
}

/// Parser of raw log lines.
pub struct McLogParser;

// ---------------------------------------------------------------------------
// The grammar
// ---------------------------------------------------------------------------
/// `\d` of the `regex` crate in its default Unicode mode: a decimal digit of
/// any script (general category `Nd`).
pub uninterp spec fn unicode_decimal_digit(c: char) -> bool;

/// Whether `c` matches the class `\d` of `regex::Regex` (Unicode `Nd`). The
/// contract names the class and states what the Unicode tables bundled with
/// the crate give for ASCII: there, exactly `0`..`9` belong to it.
#[verifier::external_body]
fn matches_digit_class(c: char) -> (r: bool)
    ensures
        r == unicode_decimal_digit(c),
        (c as int) < 0x80 ==> (r <==> is_ascii_digit(c)),
{
    match regex::Regex::new(r"^\d$") {
        Ok(re) => re.is_match(&c.to_string()),
        Err(_) => false,
    }
}

/// The first index `k >= i` with `s[k] == c`, or `s.len()` if there is none.
pub open spec fn find_from(s: Seq<char>, c: char, i: int) -> int
    decreases s.len() - i,
{
    if i < 0 || i >= s.len() {
        s.len() as int
    } else if s[i] == c {
        i
    } else {
        find_from(s, c, i + 1)
    }
}

/// The first index `k >= i` with white space at `s[k]`, or `s.len()`.
pub open spec fn white_space_from(s: Seq<char>, i: int) -> int
    decreases s.len() - i,
{
    if i < 0 || i >= s.len() {
        s.len() as int
    } else if is_white_space(s[i]) {
        i
    } else {
        white_space_from(s, i + 1)
    }
}

/// Whether `s` holds no line feed.
pub open spec fn no_newline(s: Seq<char>) -> bool {
    forall|i: int| 0 <= i < s.len() ==> s[i] != '\n'
}

/// `\d{2}:\d{2}:\d{2}`.
pub open spec fn is_clock_time(t: Seq<char>) -> bool {
    &&& t.len() == 8
    &&& unicode_decimal_digit(t[0]) && unicode_decimal_digit(t[1])
    &&& t[2] == ':'
    &&& unicode_decimal_digit(t[3]) && unicode_decimal_digit(t[4])
    &&& t[5] == ':'
    &&& unicode_decimal_digit(t[6]) && unicode_decimal_digit(t[7])
}

/// Whether every character of `s` is ASCII.
pub open spec fn is_ascii_text(s: Seq<char>) -> bool {
    forall|k: int| 0 <= k < s.len() ==> (#[trigger] s[k] as int) < 0x80
}

/// `\d{2}:\d{2}:\d{2}` with ASCII digits.
pub open spec fn is_ascii_clock_time(t: Seq<char>) -> bool {
    &&& t.len() == 8
    &&& two_digits_at(t, 0) && t[2] == ':'
    &&& two_digits_at(t, 3) && t[5] == ':'
    &&& two_digits_at(t, 6)
}

/// Splits `[<time>] [<thread/level>]: <message>` into its three fields:
/// the time is `\d{2}:\d{2}:\d{2}`, the level is one or more characters other
/// than `]`, and the message is the rest of the line, without line feeds.
pub open spec fn split_log_line(line: Seq<char>) -> Option<(Seq<char>, Seq<char>, Seq<char>)> {
    let j = find_from(line, ']', 12);
    if line.len() >= 12 && line[0] == '[' && is_clock_time(line.subrange(1, 9)) && line[9] == ']'
        && line[10] == ' ' && line[11] == '[' && j > 12 && j + 3 <= line.len() && line[j + 1]
        == ':' && line[j + 2] == ' ' && no_newline(line.subrange(j + 3, line.len() as int)) {
        Some((line.subrange(1, 9), line.subrange(12, j), line.subrange(j + 3, line.len() as int)))
    } else {
        None
    }
}

/// The line that the fields `(time, level, message)` come from.
pub open spec fn render_log_line(time: Seq<char>, level: Seq<char>, message: Seq<char>) -> Seq<
    char,
> {
    seq!['['] + time + seq![']', ' ', '['] + level + seq![']', ':', ' '] + message
}

/// `^Loading Minecraft (\S+) with Fabric Loader (\S+)`: the two versions.
pub open spec fn fabric_start(msg: Seq<char>) -> Option<(Seq<char>, Seq<char>)> {
    let p = "Loading Minecraft "@;
    let q = " with Fabric Loader "@;
    let e1 = white_space_from(msg, p.len() as int);
    let s2 = e1 + q.len();
    let e2 = white_space_from(msg, s2);
    if has_prefix(msg, p) && e1 > p.len() && has_prefix(msg.subrange(e1, msg.len() as int), q)
        && e2 > s2 {
        Some((msg.subrange(p.len() as int, e1), msg.subrange(s2, e2)))
    } else {
        None
    }
}

/// The largest `k` in `lo..=k0` with `s[k] == ')'` and `s[k + 1] == '!'`,
/// or `lo - 1` if there is none.
pub open spec fn last_close_bang(s: Seq<char>, lo: int, k: int) -> int
    decreases k + 1 - lo,
{
    if k < lo {
        lo - 1
    } else if s[k] == ')' && s[k + 1] == '!' {
        k
    } else {
        last_close_bang(s, lo, k - 1)
    }
}

/// `^Done \((.+)\)!`: the start-up time, the longest text (without line
/// feeds) between `Done (` and a later `)!`.
pub open spec fn done_time(msg: Seq<char>) -> Option<Seq<char>> {
    let p = "Done ("@;
    let n = find_from(msg, '\n', p.len() as int);
    let k = last_close_bang(msg, p.len() + 1int, n - 2);
    if has_prefix(msg, p) && k >= p.len() + 1 {
        Some(msg.subrange(p.len() as int, k))
    } else {
        None
    }
}

/// `^<([^>]+)> (.*)$`: the author and the text of a chat line.
pub open spec fn chat_parts(msg: Seq<char>) -> Option<(Seq<char>, Seq<char>)> {
    let j = find_from(msg, '>', 1);
    if msg.len() > 0 && msg[0] == '<' && j > 1 && j + 2 <= msg.len() && msg[j + 1] == ' '
        && no_newline(msg.subrange(j + 2, msg.len() as int)) {
        Some((msg.subrange(1, j), msg.subrange(j + 2, msg.len() as int)))
    } else {
        None
    }
}

/// The thread that runs the game loop.
pub open spec fn is_server_thread(level: Seq<char>) -> bool {
    has_prefix(level, "Server thread"@)
}

/// The thread on which the loader starts.
pub open spec fn is_main_thread(level: Seq<char>) -> bool {
    has_prefix(level, "main"@)
}

/// A thread that writes players' chat.
pub open spec fn is_chat_thread(level: Seq<char>) -> bool {
    is_server_thread(level) || has_prefix(level, "Async Chat Thread"@)
}

/// The event that a message written by the thread `level` stands for.
pub open spec fn classify(level: Seq<char>, msg: Seq<char>) -> EventView {
    if is_main_thread(level) && fabric_start(msg) is Some {
        EventView::Starting {
            mc_version: fabric_start(msg).unwrap().0,
            fabric_version: fabric_start(msg).unwrap().1,
        }
    } else if is_server_thread(level) && done_time(msg) is Some {
        EventView::Ready(done_time(msg)->0)
    } else if is_server_thread(level) && has_prefix(msg, "Stopping the server"@) {
        EventView::Stopping
    } else if is_server_thread(level) && has_prefix(msg, "Saving the game"@) {
        EventView::Saving
    } else if is_server_thread(level) && has_prefix(msg, "Saved the game"@) {
        EventView::Saved
    } else if is_server_thread(level) && has_prefix(msg, "Automatic saving is now disabled"@) {
        EventView::SaveOff
    } else if is_chat_thread(level) && chat_parts(msg) is Some {
        EventView::Chat { author: chat_parts(msg).unwrap().0, msg: chat_parts(msg).unwrap().1 }
    } else {
        EventView::Unknown
    }
}

/// The structured entry for a raw line, if the line follows the grammar.
pub open spec fn parse_line(line: Seq<char>) -> Option<McLogView> {
    match split_log_line(line) {
        Some((t, l, m)) => Some(McLogView { timestamp: t, level: l, message: m, event: classify(l, m) }),
        None => None,
    }
}

// ---------------------------------------------------------------------------
// Scanning helpers
// ---------------------------------------------------------------------------
fn find_char(v: &Vec<char>, c: char, i: usize) -> (r: usize)
    requires
        i <= v@.len(),
    ensures
        r as int == find_from(v@, c, i as int),
        i <= r <= v@.len(),
{
    let mut k = i;
    while k < v.len() && v[k] != c
        invariant
            i <= k <= v@.len(),
            find_from(v@, c, i as int) == find_from(v@, c, k as int),
        decreases v.len() - k,
    {
        k = k + 1;
    }
    k
}

fn find_white_space(v: &Vec<char>, i: usize) -> (r: usize)
    requires
        i <= v@.len(),
    ensures
        r as int == white_space_from(v@, i as int),
        i <= r <= v@.len(),
{
    let mut k = i;
    while k < v.len() && !is_whitespace(v[k])
        invariant
            i <= k <= v@.len(),
            white_space_from(v@, i as int) == white_space_from(v@, k as int),
        decreases v.len() - k,
    {
        k = k + 1;
    }
    k
}

proof fn lemma_find_from_bounds(s: Seq<char>, c: char, i: int)
    requires
        0 <= i <= s.len(),
    ensures
        i <= find_from(s, c, i) <= s.len(),
        find_from(s, c, i) < s.len() ==> s[find_from(s, c, i)] == c,
        forall|k: int| i <= k < find_from(s, c, i) ==> s[k] != c,
    decreases s.len() - i,
{
    if i < s.len() && s[i] != c {
        lemma_find_from_bounds(s, c, i + 1);
    }
}

fn last_close_bang_exec(v: &Vec<char>, lo: usize, k0: usize) -> (r: usize)
    requires
        1 <= lo <= k0 + 1,
        k0 + 1 < v@.len(),
    ensures
        r as int == last_close_bang(v@, lo as int, k0 as int),
        r <= k0,
{
    let n = v.len();
    let mut k = k0;
    loop
        invariant
            n == v@.len(),
            1 <= lo,
            k0 + 1 < v@.len(),
            k <= k0,
            lo <= k + 1,
            last_close_bang(v@, lo as int, k0 as int) == last_close_bang(v@, lo as int, k as int),
        decreases k + 1 - lo,
    {
        if k < lo {
            return k;
        }
        if v[k] == ')' && v[k + 1] == '!' {
            return k;
        }
        k = k - 1;
    }
}

fn is_clock_time_at(v: &Vec<char>, i: usize) -> (r: bool)
    requires
        i + 8 <= v@.len(),
    ensures
        r == is_clock_time(v@.subrange(i as int, i + 8)),
        is_ascii_text(v@.subrange(i as int, i + 8)) ==> (r <==> is_ascii_clock_time(
            v@.subrange(i as int, i + 8),
        )),
{
    let ghost t = v@.subrange(i as int, i + 8);
    assert(forall|k: int| 0 <= k < 8 ==> t[k] == v@[i + k]);
    // reading the length tells the verifier that it fits in a usize
    let _len = v.len();
    matches_digit_class(v[i]) && matches_digit_class(v[i + 1]) && v[i + 2] == ':'
        && matches_digit_class(v[i + 3]) && matches_digit_class(v[i + 4]) && v[i + 5] == ':'
        && matches_digit_class(v[i + 6]) && matches_digit_class(v[i + 7])
}

fn sub_vec(v: &Vec<char>, lo: usize, hi: usize) -> (r: Vec<char>)
    requires
        lo <= hi <= v@.len(),
    ensures
        r@ == v@.subrange(lo as int, hi as int),
{
    let mut r: Vec<char> = Vec::new();
    let mut i = lo;
    while i < hi
        invariant
            lo <= i <= hi <= v@.len(),
            r@ == v@.subrange(lo as int, i as int),
        decreases hi - i,
    {
        r.push(v[i]);
        assert(v@.subrange(lo as int, i + 1) == v@.subrange(lo as int, i as int).push(v@[i as int]));
        i = i + 1;
    }
    r
}

// ---------------------------------------------------------------------------
// Recognisers
// ---------------------------------------------------------------------------
fn fabric_start_exec(msg: &Vec<char>) -> (r: Option<(String, String)>)
    ensures
        match r {
            Some((a, b)) => fabric_start(msg@) == Some((a@, b@)),
            None => fabric_start(msg@) is None,
        },
{
    let p = "Loading Minecraft ";
    let q = " with Fabric Loader ";
    let pv = chars_of(p);
    let qv = chars_of(q);
    if !starts_with_at(msg, 0, p) {
        assert(msg@.subrange(0, msg@.len() as int) == msg@);
        return None;
    }
    assert(msg@.subrange(0, msg@.len() as int) == msg@);
    // reading the length tells the verifier that it fits in a usize
    let _len = msg.len();
    let e1 = find_white_space(msg, pv.len());
    if e1 <= pv.len() || !starts_with_at(msg, e1, q) {
        return None;
    }
    let s2 = e1 + qv.len();
    let e2 = find_white_space(msg, s2);
    if e2 <= s2 {
        return None;
    }
    Some((string_of(msg, pv.len(), e1), string_of(msg, s2, e2)))
}

fn done_time_exec(msg: &Vec<char>) -> (r: Option<String>)
    ensures
        match r {
            Some(t) => done_time(msg@) == Some(t@),
            None => done_time(msg@) is None,
        },
{
    let p = "Done (";
    let pv = chars_of(p);
    if !starts_with_at(msg, 0, p) {
        assert(msg@.subrange(0, msg@.len() as int) == msg@);
        return None;
    }
    assert(msg@.subrange(0, msg@.len() as int) == msg@);
    let n = find_char(msg, '\n', pv.len());
    // a closing ")!" needs at least one character between it and the prefix
    if n - pv.len() < 3 {
        proof {
            assert(last_close_bang(msg@, p@.len() + 1int, n - 2) == p@.len());
        }
        return None;
    }
    let k = last_close_bang_exec(msg, pv.len() + 1, n - 2);
    if k < pv.len() + 1 {
        return None;
    }
    Some(string_of(msg, pv.len(), k))
}

fn chat_parts_exec(msg: &Vec<char>) -> (r: Option<(String, String)>)
    ensures
        match r {
            Some((a, b)) => chat_parts(msg@) == Some((a@, b@)),
            None => chat_parts(msg@) is None,
        },
{
    let n = msg.len();
    if n == 0 || msg[0] != '<' {
        return None;
    }
    let j = find_char(msg, '>', 1);
    if j <= 1 || j >= n || n - j < 2 || msg[j + 1] != ' ' {
        return None;
    }
    let nl = find_char(msg, '\n', j + 2);
    proof {
        lemma_find_from_bounds(msg@, '\n', j + 2);
    }
    if nl < n {
        assert(msg@.subrange(j + 2, n as int)[nl - (j + 2)] == '\n');
        return None;
    }
    Some((string_of(msg, 1, j), string_of(msg, j + 2, n)))
}

impl McLogParser {
    /// Parses one raw line into a structured entry; `None` when the line does
    /// not follow the `[time] [thread/level]: message` grammar (stack traces,
    /// stderr output and the like).
    pub fn parse(line: &str) -> (res: Option<McLog>)
        ensures
            opt_log_view(res) == parse_line(line@),
            line@.len() >= 12 && line@[0] == '[' && is_ascii_text(line@.subrange(1, 9)) ==> (
            is_clock_time(line@.subrange(1, 9)) <==> is_ascii_clock_time(line@.subrange(1, 9))),
    {
        let v = chars_of(line);
        let n = v.len();
        if n < 12 || v[0] != '[' || !is_clock_time_at(&v, 1) || v[9] != ']' || v[10] != ' '
            || v[11] != '[' {
            return None;
        }
        let j = find_char(&v, ']', 12);
        if j <= 12 || j > n - 3 || v[j + 1] != ':' || v[j + 2] != ' ' {
            return None;
        }
        let nl = find_char(&v, '\n', j + 3);
        proof {
            lemma_find_from_bounds(v@, '\n', j + 3);
        }
        if nl < n {
            assert(v@.subrange(j + 3, n as int)[nl - (j + 3)] == '\n');
            return None;
        }
        let level = sub_vec(&v, 12, j);
        let msg = sub_vec(&v, j + 3, n);
        let event = Self::detect_event(&level, &msg);
        Some(
            McLog {
                timestamp: string_of(&v, 1, 9),
                level: string_of(&v, 12, j),
                message: string_of(&v, j + 3, n),
                event,
            },
        )
    }

    /// Classifies a message by the thread that wrote it.
    fn detect_event(level: &Vec<char>, msg: &Vec<char>) -> (e: ServerEvent)
        ensures
            e@ == classify(level@, msg@),
    {
        assert(level@.subrange(0, level@.len() as int) == level@);
        assert(msg@.subrange(0, msg@.len() as int) == msg@);
        let is_server_thread = starts_with_at(level, 0, "Server thread");
        let is_main_thread = starts_with_at(level, 0, "main");
        if is_main_thread {
            if let Some((mc_version, fabric_version)) = fabric_start_exec(msg) {
                return ServerEvent::Starting { mc_version, fabric_version };
            }
        }
        if is_server_thread {
            if let Some(time) = done_time_exec(msg) {
                return ServerEvent::Ready(time);
            }
            if starts_with_at(msg, 0, "Stopping the server") {
                return ServerEvent::Stopping;
            }
            if starts_with_at(msg, 0, "Saving the game") {
                return ServerEvent::Saving;
            }
            if starts_with_at(msg, 0, "Saved the game") {
                return ServerEvent::Saved;
            }
            if starts_with_at(msg, 0, "Automatic saving is now disabled") {
                return ServerEvent::SaveOff;
            }
        }
        if is_server_thread || starts_with_at(level, 0, "Async Chat Thread") {
            if let Some((author, text)) = chat_parts_exec(msg) {
                return ServerEvent::Chat { author, msg: text };
            }
        }
        ServerEvent::Unknown
    }
}

// ---------------------------------------------------------------------------
// Laws of the grammar
// ---------------------------------------------------------------------------
proof fn lemma_find_from_is(s: Seq<char>, c: char, i: int, j: int)
    requires
        0 <= i <= j < s.len(),
        s[j] == c,
        forall|k: int| i <= k < j ==> s[k] != c,
    ensures
        find_from(s, c, i) == j,
    decreases j - i,
{
    if i < j {
        lemma_find_from_is(s, c, i + 1, j);
    }
}

/// A parsed line is exactly its three fields put back together: parsing
/// loses nothing.
pub proof fn lemma_split_then_render(line: Seq<char>)
    requires
        split_log_line(line) is Some,
    ensures
        ({
            let (t, l, m) = split_log_line(line).unwrap();
            line == render_log_line(t, l, m)
        }),
{
    lemma_find_from_bounds(line, ']', 12);
    let (t, l, m) = split_log_line(line).unwrap();
    assert(line =~= render_log_line(t, l, m));
}

/// Fields that the grammar allows (a clock time, a non-empty level without
/// `]`, a message without line feeds) are read back unchanged from the line
/// they make up.
pub proof fn lemma_render_then_split(time: Seq<char>, level: Seq<char>, message: Seq<char>)
    requires
        is_clock_time(time),
        level.len() > 0,
        forall|k: int| 0 <= k < level.len() ==> level[k] != ']',
        no_newline(message),
    ensures
        split_log_line(render_log_line(time, level, message)) == Some((time, level, message)),
{
    let line = render_log_line(time, level, message);
    let j: int = 12 + level.len() as int;
    assert(line[j] == ']');
    assert forall|k: int| 12 <= k < j implies line[k] != ']' by {
        assert(line[k] == level[k - 12]);
    }
    lemma_find_from_is(line, ']', 12, j);
    assert(line.subrange(1, 9) =~= time);
    assert(line.subrange(12, j) =~= level);
    assert(line.subrange(j + 3, line.len() as int) =~= message);
}

/// Lifecycle events are only believed from the thread that owns them: the
/// game-loop thread for readiness, stopping and saving, the main thread for
/// the loader's start. Any other thread (a player's chat, a worker) cannot
/// produce them, whatever it writes.
pub proof fn lemma_lifecycle_events_need_their_thread(level: Seq<char>, msg: Seq<char>)
    ensures
        !is_server_thread(level) ==> !(classify(level, msg) is Ready || classify(level, msg) is Stopping
            || classify(level, msg) is Saving || classify(level, msg) is Saved || classify(
            level,
            msg,
        ) is SaveOff),
        !is_main_thread(level) ==> !(classify(level, msg) is Starting),
{
}

proof fn lemma_white_space_from_is(s: Seq<char>, i: int, j: int)
    requires
        0 <= i <= j <= s.len(),
        forall|k: int| i <= k < j ==> !is_white_space(s[k]),
        j == s.len() || is_white_space(s[j]),
    ensures
        white_space_from(s, i) == j,
    decreases j - i,
{
    if i < j {
        lemma_white_space_from_is(s, i + 1, j);
    }
}

/// A loader's start line written by the main thread announces exactly the
/// game and loader versions it names, however long they are: for versions `v`
/// and `f` without white space, and anything after them that begins with
/// white space, the message is the `Starting` event with those versions.
pub proof fn lemma_loader_line_announces_versions(
    thread: Seq<char>,
    v: Seq<char>,
    f: Seq<char>,
    rest: Seq<char>,
)
    requires
        v.len() > 0,
        f.len() > 0,
        forall|k: int| 0 <= k < v.len() ==> !is_white_space(v[k]),
        forall|k: int| 0 <= k < f.len() ==> !is_white_space(f[k]),
        rest.len() == 0 || is_white_space(rest[0]),
    ensures
        classify("main"@ + thread, "Loading Minecraft "@ + v + " with Fabric Loader "@ + f + rest)
            == (EventView::Starting { mc_version: v, fabric_version: f }),
{
    reveal_strlit("main");
    reveal_strlit("Loading Minecraft ");
    reveal_strlit(" with Fabric Loader ");
    let level = "main"@ + thread;
    let p = "Loading Minecraft "@;
    let q = " with Fabric Loader "@;
    let msg = p + v + q + f + rest;
    assert(level.take(4) =~= "main"@);
    assert(is_main_thread(level));
    assert(msg.take(p.len() as int) =~= p);
    let e1: int = (p.len() + v.len()) as int;
    assert forall|k: int| p.len() <= k < e1 implies !is_white_space(msg[k]) by {
        assert(msg[k] == v[k - p.len()]);
    }
    assert(msg[e1] == ' ');
    lemma_white_space_from_is(msg, p.len() as int, e1);
    assert(msg.subrange(e1, msg.len() as int).take(q.len() as int) =~= q);
    let s2: int = e1 + q.len();
    let e2: int = s2 + f.len();
    assert forall|k: int| s2 <= k < e2 implies !is_white_space(msg[k]) by {
        assert(msg[k] == f[k - s2]);
    }
    if rest.len() > 0 {
        assert(msg[e2] == rest[0]);
    }
    lemma_white_space_from_is(msg, s2, e2);
    assert(msg.subrange(p.len() as int, e1) =~= v);
    assert(msg.subrange(s2, e2) =~= f);
}

/// A whole log line whose thread is the main thread and whose message is a
/// loader's start line is read as that line's time, thread and message, with
/// the `Starting` event for the versions it names, whatever their length.
pub proof fn lemma_loader_line_parses(
    time: Seq<char>,
    thread: Seq<char>,
    v: Seq<char>,
    f: Seq<char>,
    rest: Seq<char>,
)
    requires
        is_clock_time(time),
        forall|k: int| 0 <= k < thread.len() ==> thread[k] != ']',
        v.len() > 0,
        f.len() > 0,
        forall|k: int| 0 <= k < v.len() ==> !is_white_space(v[k]),
        forall|k: int| 0 <= k < f.len() ==> !is_white_space(f[k]),
        rest.len() == 0 || is_white_space(rest[0]),
        no_newline(rest),
    ensures
        parse_line(
            render_log_line(
                time,
                "main"@ + thread,
                "Loading Minecraft "@ + v + " with Fabric Loader "@ + f + rest,
            ),
        ) == Some(
            McLogView {
                timestamp: time,
                level: "main"@ + thread,
                message: "Loading Minecraft "@ + v + " with Fabric Loader "@ + f + rest,
                event: EventView::Starting { mc_version: v, fabric_version: f },
            },
        ),
{
    reveal_strlit("main");
    reveal_strlit("Loading Minecraft ");
    reveal_strlit(" with Fabric Loader ");
    let level = "main"@ + thread;
    let msg = "Loading Minecraft "@ + v + " with Fabric Loader "@ + f + rest;
    assert forall|k: int| 0 <= k < level.len() implies level[k] != ']' by {
        if k >= 4 {
            assert(level[k] == thread[k - 4]);
        }
    }
    assert forall|k: int| 0 <= k < msg.len() implies msg[k] != '\n' by {
        assert(is_white_space('\n'));
        let a: int = 18 + v.len() as int;
        let b: int = a + 20;
        let c: int = b + f.len();
        if 18 <= k < a {
            assert(msg[k] == v[k - 18]);
        } else if b <= k < c {
            assert(msg[k] == f[k - b]);
        } else if k >= c {
            assert(msg[k] == rest[k - c]);
        }
    }
    lemma_render_then_split(time, level, msg);
    lemma_loader_line_announces_versions(thread, v, f, rest);
}

proof fn lemma_find_from_none(s: Seq<char>, c: char, i: int)
    requires
        0 <= i <= s.len(),
        forall|k: int| i <= k < s.len() ==> s[k] != c,
    ensures
        find_from(s, c, i) == s.len(),
    decreases s.len() - i,
{
    if i < s.len() {
        lemma_find_from_none(s, c, i + 1);
    }
}

proof fn lemma_last_close_bang_is(s: Seq<char>, lo: int, k: int, j: int)
    requires
        lo <= j <= k,
        0 <= j,
        k + 1 < s.len(),
        s[j] == ')' && s[j + 1] == '!',
        forall|m: int| j < m <= k ==> !(#[trigger] s[m] == ')' && s[m + 1] == '!'),
    ensures
        last_close_bang(s, lo, k) == j,
    decreases k - j,
{
    if j < k {
        lemma_last_close_bang_is(s, lo, k - 1, j);
    }
}

/// The game loop's readiness line announces the start-up time it names,
/// whatever that text is: for `Done (<t>)!` with a non-empty `t` and no line
/// feed, followed by anything without a line feed or another `)!`, the
/// message is the `Ready(t)` event.
pub proof fn lemma_ready_line_reports_its_time(thread: Seq<char>, t: Seq<char>, rest: Seq<char>)
    requires
        t.len() > 0,
        no_newline(t),
        no_newline(rest),
        forall|m: int| 0 <= m < rest.len() - 1 ==> !(#[trigger] rest[m] == ')' && rest[m + 1] == '!'),
    ensures
        classify("Server thread"@ + thread, "Done ("@ + t + ")!"@ + rest) == EventView::Ready(t),
{
    reveal_strlit("Server thread");
    reveal_strlit("main");
    reveal_strlit("Done (");
    reveal_strlit(")!");
    let level = "Server thread"@ + thread;
    let msg = "Done ("@ + t + ")!"@ + rest;
    assert(level.take(13) =~= "Server thread"@);
    assert(!is_main_thread(level)) by {
        if has_prefix(level, "main"@) {
            assert(level.take(4)[0] == level[0]);
        }
    }
    assert(msg.take(6) =~= "Done ("@);
    let j: int = 6 + t.len() as int;
    assert forall|k: int| 6 <= k < msg.len() implies msg[k] != '\n' by {
        if k < j {
            assert(msg[k] == t[k - 6]);
        } else if k >= j + 2 {
            assert(msg[k] == rest[k - j - 2]);
        }
    }
    lemma_find_from_none(msg, '\n', 6);
    assert forall|m: int| j < m <= msg.len() - 2 implies !(#[trigger] msg[m] == ')' && msg[m + 1] == '!') by {
        if m >= j + 2 {
            assert(msg[m] == rest[m - j - 2]);
            assert(msg[m + 1] == rest[m + 1 - j - 2]);
        }
    }
    lemma_last_close_bang_is(msg, 7, msg.len() - 2, j);
    assert(msg.subrange(6, j) =~= t);
}

/// A player's chat line on the chat thread is read as that player's
/// message: for `<a> m` with a non-empty author without `>` and a text
/// without line feeds, the message is `Chat { author: a, msg: m }`.
pub proof fn lemma_chat_line_names_its_author(thread: Seq<char>, a: Seq<char>, m: Seq<char>)
    requires
        a.len() > 0,
        forall|k: int| 0 <= k < a.len() ==> a[k] != '>',
        no_newline(m),
    ensures
        classify("Async Chat Thread"@ + thread, "<"@ + a + "> "@ + m) == (EventView::Chat {
            author: a,
            msg: m,
        }),
{
    reveal_strlit("Async Chat Thread");
    reveal_strlit("Server thread");
    reveal_strlit("main");
    reveal_strlit("<");
    reveal_strlit("> ");
    let level = "Async Chat Thread"@ + thread;
    let msg = "<"@ + a + "> "@ + m;
    assert(level.take(17) =~= "Async Chat Thread"@);
    assert(!is_main_thread(level)) by {
        if has_prefix(level, "main"@) {
            assert(level.take(4)[0] == level[0]);
        }
    }
    assert(!is_server_thread(level)) by {
        if has_prefix(level, "Server thread"@) {
            assert(level.take(13)[0] == level[0]);
        }
    }
    let j: int = 1 + a.len() as int;
    assert forall|k: int| 1 <= k < j implies msg[k] != '>' by {
        assert(msg[k] == a[k - 1]);
    }
    lemma_find_from_is(msg, '>', 1, j);
    assert(msg.subrange(j + 2, msg.len() as int) =~= m);
    assert(msg.subrange(1, j) =~= a);
}

/// The game loop's lifecycle lines are read for what they say, whatever
/// follows the words: stopping, a save beginning, a save finished, and
/// automatic saving switched off.
pub proof fn lemma_lifecycle_lines(thread: Seq<char>, rest: Seq<char>)
    ensures
        classify("Server thread"@ + thread, "Stopping the server"@ + rest) == EventView::Stopping,
        classify("Server thread"@ + thread, "Saving the game"@ + rest) == EventView::Saving,
        classify("Server thread"@ + thread, "Saved the game"@ + rest) == EventView::Saved,
        classify("Server thread"@ + thread, "Automatic saving is now disabled"@ + rest)
            == EventView::SaveOff,
{
    reveal_strlit("Server thread");
    reveal_strlit("main");
    reveal_strlit("Done (");
    reveal_strlit("Stopping the server");
    reveal_strlit("Saving the game");
    reveal_strlit("Saved the game");
    reveal_strlit("Automatic saving is now disabled");
    let level = "Server thread"@ + thread;
    assert(level.take(13) =~= "Server thread"@);
    assert(!is_main_thread(level)) by {
        if has_prefix(level, "main"@) {
            assert(level.take(4)[0] == level[0]);
        }
    }
    let m1 = "Stopping the server"@ + rest;
    let m2 = "Saving the game"@ + rest;
    let m3 = "Saved the game"@ + rest;
    let m4 = "Automatic saving is now disabled"@ + rest;
    assert(m1.take(19) =~= "Stopping the server"@);
    assert(m2.take(15) =~= "Saving the game"@);
    assert(m3.take(14) =~= "Saved the game"@);
    assert(m4.take(32) =~= "Automatic saving is now disabled"@);
    // none of them is a readiness line, and each is no earlier kind
    assert(!has_prefix(m1, "Done ("@)) by {
        if has_prefix(m1, "Done ("@) {
            assert(m1.take(6)[0] == m1[0]);
        }
    }
    assert(!has_prefix(m2, "Done ("@)) by {
        if has_prefix(m2, "Done ("@) {
            assert(m2.take(6)[0] == m2[0]);
        }
    }
    assert(!has_prefix(m3, "Done ("@)) by {
        if has_prefix(m3, "Done ("@) {
            assert(m3.take(6)[0] == m3[0]);
        }
    }
    assert(!has_prefix(m4, "Done ("@)) by {
        if has_prefix(m4, "Done ("@) {
            assert(m4.take(6)[0] == m4[0]);
        }
    }
    assert(!has_prefix(m2, "Stopping the server"@)) by {
        if has_prefix(m2, "Stopping the server"@) {
            assert(m2.take(19)[1] == m2[1]);
        }
    }
    assert(!has_prefix(m3, "Stopping the server"@)) by {
        if has_prefix(m3, "Stopping the server"@) {
            assert(m3.take(19)[1] == m3[1]);
        }
    }
    assert(!has_prefix(m3, "Saving the game"@)) by {
        if has_prefix(m3, "Saving the game"@) {
            assert(m3.take(15)[4] == m3[4]);
        }
    }
    assert(!has_prefix(m4, "Stopping the server"@)) by {
        if has_prefix(m4, "Stopping the server"@) {
            assert(m4.take(19)[0] == m4[0]);
        }
    }
    assert(!has_prefix(m4, "Saving the game"@)) by {
        if has_prefix(m4, "Saving the game"@) {
            assert(m4.take(15)[0] == m4[0]);
        }
    }
    assert(!has_prefix(m4, "Saved the game"@)) by {
        if has_prefix(m4, "Saved the game"@) {
            assert(m4.take(14)[0] == m4[0]);
        }
    }
}

proof fn lemma_prefix_first(s: Seq<char>, p: Seq<char>)
    requires
        p.len() > 0,
        has_prefix(s, p),
    ensures
        s[0] == p[0],
{
    assert(s.take(p.len() as int)[0] == s[0]);
}

/// A chat line (`<author> text`) is never taken for a lifecycle event, even
/// when its text is a lifecycle message: it is chat or nothing.
pub proof fn lemma_chat_cannot_spoof_lifecycle(level: Seq<char>, msg: Seq<char>)
    requires
        msg.len() > 0,
        msg[0] == '<',
    ensures
        classify(level, msg) is Chat || classify(level, msg) is Unknown,
{
    reveal_strlit("Loading Minecraft ");
    reveal_strlit("Done (");
    reveal_strlit("Stopping the server");
    reveal_strlit("Saving the game");
    reveal_strlit("Saved the game");
    reveal_strlit("Automatic saving is now disabled");
    if has_prefix(msg, "Loading Minecraft "@) {
        lemma_prefix_first(msg, "Loading Minecraft "@);
    }
    if has_prefix(msg, "Done ("@) {
        lemma_prefix_first(msg, "Done ("@);
    }
    if has_prefix(msg, "Stopping the server"@) {
        lemma_prefix_first(msg, "Stopping the server"@);
    }
    if has_prefix(msg, "Saving the game"@) {
        lemma_prefix_first(msg, "Saving the game"@);
    }
    if has_prefix(msg, "Saved the game"@) {
        lemma_prefix_first(msg, "Saved the game"@);
    }
    if has_prefix(msg, "Automatic saving is now disabled"@) {
        lemma_prefix_first(msg, "Automatic saving is now disabled"@);
    }
}

} // verus!
