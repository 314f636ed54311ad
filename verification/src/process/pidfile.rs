//! The pid file: where it lives, what is written to it, and how what is read
//! back from it is interpreted.
use vstd::prelude::*;
use crate::process::error::{io_failure, io_kind_of, Error, IoErrorKind, IoFailure};
use crate::text::{
    all_ascii_digits, decimal, digit_char, digit_value, digits_value, is_ascii_digit,
    is_white_space, join_path, parse_u32, parse_u32_spec, path_join, push_decimal, trim,
    trim_bounds, trim_end, trim_start,
};

verus! {

broadcast use vstd::string::group_string_axioms;

/// The pid file of the server rooted at `working_dir`:
/// `<working_dir>/runtime/server.pid`.
pub open spec fn pid_path(working_dir: Seq<char>) -> Seq<char> {
    path_join(path_join(working_dir, "runtime"@), "server.pid"@)
}

/// The directory that holds the pid file: `<working_dir>/runtime`.
pub open spec fn runtime_dir(working_dir: Seq<char>) -> Seq<char> {
    path_join(working_dir, "runtime"@)
}

/// What is written to the pid file: the pid in decimal and a line feed.
pub open spec fn pid_file_text(pid: u32) -> Seq<char> {
    decimal(pid as nat).push('\n')
}

/// The pid that a pid file holds: its trimmed contents, parsed as a `u32`.
pub open spec fn pid_in_text(contents: Seq<char>) -> Option<u32> {
    parse_u32_spec(trim(contents))
}

/// `<working_dir>/runtime`.
pub fn runtime_dir_of(working_dir: &str) -> (p: String)
    ensures
        p@ == runtime_dir(working_dir@),
{
    proof {
        reveal_strlit("runtime");
    }
    join_path(working_dir, "runtime")
}

/// `<working_dir>/runtime/server.pid`.
pub fn path(working_dir: &str) -> (p: String)
    ensures
        p@ == pid_path(working_dir@),
{
    proof {
        reveal_strlit("server.pid");
    }
    let dir = runtime_dir_of(working_dir);
    join_path(&dir, "server.pid")
}

/// `<working_dir>/runtime/server.pid.tmp`, written first and then renamed over
/// the pid file so that readers never see a partial pid.
pub fn tmp_path(working_dir: &str) -> (p: String)
    ensures
        p@ == path_join(runtime_dir(working_dir@), "server.pid.tmp"@),
{
    proof {
        reveal_strlit("server.pid.tmp");
    }
    let dir = runtime_dir_of(working_dir);
    join_path(&dir, "server.pid.tmp")
}

/// The contents written to the pid file for `pid` (`writeln!("{}", pid)`).
pub fn contents(pid: u32) -> (s: String)
    ensures
        s@ == pid_file_text(pid),
{
    let mut s = String::new();
    push_decimal(&mut s, pid as u64);
    crate::text::push_str(&mut s, "\n");
    proof {
        reveal_strlit("\n");
    }
    s
}

/// The pid held by the pid file's contents, if they hold one.
pub fn parse_pid(text: &str) -> (r: Option<u32>)
    ensures
        r == pid_in_text(text@),
{
    let v = crate::text::chars_of(text);
    let (lo, hi) = trim_bounds(&v);
    parse_u32(&v, lo, hi)
}

/// What the file system answered to a read or a removal of the pid file.
#[derive(Debug)]
pub enum FileOutcome<T> {
    /// The operation succeeded, with its result.
    Done(T),
    /// There is no such file (`std::io::ErrorKind::NotFound`).
    Missing,
    /// Any other failure.
    Failed(std::io::Error),
}

/// Interprets the attempt to read the pid file: a missing file means that no
/// server was left behind; contents that hold no pid are an error.
pub fn interpret_read(res: FileOutcome<String>) -> (r: Result<Option<u32>, Error>)
    ensures
        match res {
            FileOutcome::Done(text) => match pid_in_text(text@) {
                Some(pid) => r == Ok::<Option<u32>, Error>(Some(pid)),
                None => r matches Err(e) && e is ReadPidFileFailed && io_kind_of(e) == Some(
                    IoErrorKind::InvalidData,
                ),
            },
            FileOutcome::Missing => r == Ok::<Option<u32>, Error>(None),
            FileOutcome::Failed(e) => r == Err::<Option<u32>, Error>(Error::ReadPidFileFailed(e)),
        },
{
    match res {
        FileOutcome::Done(text) => match parse_pid(&text) {
            Some(pid) => Ok(Some(pid)),
            None => Err(
                io_failure(IoFailure::ReadPidFile, IoErrorKind::InvalidData, "pid file does not hold a pid"),
            ),
        },
        FileOutcome::Missing => Ok(None),
        FileOutcome::Failed(e) => Err(Error::ReadPidFileFailed(e)),
    }
}

/// Interprets the attempt to remove the pid file: a file that is already gone
/// is not an error.
pub fn interpret_remove(res: FileOutcome<()>) -> (r: Result<(), Error>)
    ensures
        match res {
            FileOutcome::Done(()) | FileOutcome::Missing => r is Ok,
            FileOutcome::Failed(e) => r == Err::<(), Error>(Error::RemovePidFileFailed(e)),
        },
{
    match res {
        FileOutcome::Done(()) | FileOutcome::Missing => Ok(()),
        FileOutcome::Failed(e) => Err(Error::RemovePidFileFailed(e)),
    }
}

// ---------------------------------------------------------------------------
// What a read gives back of a write
// ---------------------------------------------------------------------------
proof fn lemma_digit_char(d: nat)
    requires
        d < 10,
    ensures
        is_ascii_digit(digit_char(d)),
        digit_value(digit_char(d)) == d,
        !is_white_space(digit_char(d)),
        digit_char(d) != '+',
{
}

proof fn lemma_decimal_digits(n: nat)
    ensures
        decimal(n).len() > 0,
        all_ascii_digits(decimal(n)),
        digits_value(decimal(n)) == n,
        decimal(n)[0] != '+',
        !is_white_space(decimal(n)[0]),
        !is_white_space(decimal(n).last()),
    decreases n,
{
    if n < 10 {
        lemma_digit_char(n);
        assert(decimal(n).drop_last() =~= Seq::<char>::empty());
        assert(digits_value(decimal(n).drop_last()) == 0);
        assert(decimal(n).last() == digit_char(n));
    } else {
        lemma_decimal_digits(n / 10);
        lemma_digit_char(n % 10);
        let d = decimal(n / 10);
        assert(decimal(n) == d.push(digit_char(n % 10)));
        assert(decimal(n).drop_last() == d);
        assert(decimal(n).last() == digit_char(n % 10));
        assert(digits_value(decimal(n)) == digits_value(d) * 10 + digit_value(digit_char(n % 10)));
        assert(n == (n / 10) * 10 + n % 10);
        assert(decimal(n)[0] == d[0]);
        assert forall|i: int| 0 <= i < decimal(n).len() implies is_ascii_digit(
            #[trigger] decimal(n)[i],
        ) by {
            if i < d.len() {
                assert(decimal(n)[i] == d[i]);
            }
        }
    }
}

/// A pid written to the pid file is read back unchanged.
pub proof fn lemma_pid_file_round_trip(pid: u32)
    ensures
        pid_in_text(pid_file_text(pid)) == Some(pid),
{
    let d = decimal(pid as nat);
    lemma_decimal_digits(pid as nat);
    let t = pid_file_text(pid);
    assert(is_white_space('\n'));
    assert(trim_start(t) == t);
    assert(t.drop_last() == d);
    assert(trim_end(t) == trim_end(d));
    assert(trim_end(d) == d);
    assert(trim(t) == d);
}

} // verus!
