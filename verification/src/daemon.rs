//! The decisions of starting and stopping the daemon, and reading its PID file.

use std::num::IntErrorKind;
use vstd::arithmetic::power::pow;
use vstd::prelude::*;

use crate::text::{
    is_white_space, lemma_trimmed_drops_only_white_space, lemma_white_space_in_ascii, trim, trimmed,
};

verus! {

#[verifier::external_type_specification]
#[verifier::external_body]
pub struct ExParseIntError(std::num::ParseIntError);

/// An ASCII decimal digit.
pub open spec fn is_digit(c: char) -> bool {
    '0' <= c <= '9'
}

/// Every character is an ASCII decimal digit.
pub open spec fn all_digits(s: Seq<char>) -> bool {
    forall|i: int| 0 <= i < s.len() ==> is_digit(#[trigger] s[i])
}

/// The value of a string of decimal digits.
pub open spec fn digits_value(s: Seq<char>) -> int
    decreases s.len(),
{
    if s.len() == 0 {
        0
    } else {
        digits_value(s.drop_last()) * 10 + (s.last() as int - '0' as int)
    }
}

/// The value of a decimal integer written as an optional sign followed by at
/// least one digit, and nothing else.
pub open spec fn decimal_value(s: Seq<char>) -> Option<int> {
    if s.len() > 0 && (s[0] == '+' || s[0] == '-') {
        let d = s.skip(1);
        if d.len() > 0 && all_digits(d) {
            if s[0] == '-' {
                Some(-digits_value(d))
            } else {
                Some(digits_value(d))
            }
        } else {
            None
        }
    } else if s.len() > 0 && all_digits(s) {
        Some(digits_value(s))
    } else {
        None
    }
}

/// The `i32` that a text denotes, if it is a decimal integer within range.
pub open spec fn i32_text_value(s: Seq<char>) -> Option<i32> {
    match decimal_value(s) {
        Some(v) => if i32::MIN <= v <= i32::MAX {
            Some(v as i32)
        } else {
            None
        },
        None => None,
    }
}

/// A decimal integer text that denotes a value outside `i32`.
pub open spec fn out_of_range_text(s: Seq<char>) -> bool {
    decimal_value(s) matches Some(v) && !(i32::MIN <= v <= i32::MAX)
}

/// Why a text is not an `i32`: std's `IntErrorKind`, one variant for each of
/// its variants (it may gain more, which `Other` stands for).
#[derive(Debug, Clone, Copy, PartialEq, Eq)]
pub enum IntegerErrorKind {
    Empty,
    InvalidDigit,
    PosOverflow,
    NegOverflow,
    Zero,
    Other,
}

/// The error kinds that std documents for a text: an empty text is `Empty`,
/// and a non-empty one never is; a lone sign is `InvalidDigit`; a
/// well-formed number beyond `i32::MAX` is `PosOverflow`, one below
/// `i32::MIN` is `NegOverflow`; a malformed text of at most nine characters,
/// too short to hold a number beyond `i32`, is `InvalidDigit`. Which kind a
/// longer text gets that is both malformed and too long is left open, as
/// std's documentation leaves it.
pub open spec fn error_kind_fits(s: Seq<char>, kind: IntegerErrorKind) -> bool {
    &&& (kind == IntegerErrorKind::Empty <==> s.len() == 0)
    &&& (s =~= seq!['+'] || s =~= seq!['-']) ==> kind == IntegerErrorKind::InvalidDigit
    &&& (decimal_value(s) matches Some(v) && v > i32::MAX) ==> kind == IntegerErrorKind::PosOverflow
    &&& (decimal_value(s) matches Some(v) && v < i32::MIN) ==> kind == IntegerErrorKind::NegOverflow
    &&& (0 < s.len() <= 9 && decimal_value(s) is None) ==> kind == IntegerErrorKind::InvalidDigit
}

/// A PID file that could not be read as a process id: why, and std's error.
#[derive(Debug)]
pub struct PidError {
    pub kind: IntegerErrorKind,
    pub error: std::num::ParseIntError,
}

/// Calls `str::parse::<i32>` and, on failure, `ParseIntError::kind`. As std
/// documents it, the text must be an optional `+` or `-` followed by one or
/// more digits 0-9, with nothing else, and the value must fit in `i32`; the
/// kind of a failure is as `error_kind_fits` states.
#[verifier::external_body]
fn parse_i32(s: &str) -> (r: Result<i32, PidError>)
    ensures
        r is Ok <==> i32_text_value(s@) is Some,
        r matches Ok(v) ==> i32_text_value(s@) == Some(v),
        r matches Err(e) ==> error_kind_fits(s@, e.kind),
{
    match s.parse::<i32>() {
        Ok(v) => Ok(v),
        Err(error) => {
            let kind = match error.kind() {
                IntErrorKind::Empty => IntegerErrorKind::Empty,
                IntErrorKind::InvalidDigit => IntegerErrorKind::InvalidDigit,
                IntErrorKind::PosOverflow => IntegerErrorKind::PosOverflow,
                IntErrorKind::NegOverflow => IntegerErrorKind::NegOverflow,
                IntErrorKind::Zero => IntegerErrorKind::Zero,
                _ => IntegerErrorKind::Other,
            };
            Err(PidError { kind, error })
        },
    }
}

/// The process id written in a PID file: its contents without white space at
/// either end, read as an `i32`.
pub fn parse_pid(contents: &str) -> (r: Result<i32, PidError>)
    ensures
        r is Ok <==> i32_text_value(trimmed(contents@)) is Some,
        r matches Ok(v) ==> i32_text_value(trimmed(contents@)) == Some(v),
        r matches Err(e) ==> error_kind_fits(trimmed(contents@), e.kind),
{
    parse_i32(trim(contents))
}

/// The value of a string of digits is never negative.
proof fn lemma_digits_value_nonnegative(d: Seq<char>)
    requires
        all_digits(d),
    ensures
        digits_value(d) >= 0,
    decreases d.len(),
{
    if d.len() > 0 {
        assert(all_digits(d.drop_last())) by {
            assert forall|i: int| 0 <= i < d.drop_last().len() implies is_digit(
                #[trigger] d.drop_last()[i],
            ) by {
                assert(d.drop_last()[i] == d[i]);
            }
        }
        lemma_digits_value_nonnegative(d.drop_last());
        assert(is_digit(d[d.len() - 1]));
    }
}

/// Digits read left to right: the value of two digit strings written one
/// after the other is the first value shifted by the length of the second,
/// plus the second value.
pub proof fn lemma_digits_value_concat(d: Seq<char>, e: Seq<char>)
    ensures
        digits_value(d + e) == digits_value(d) * pow(10, e.len()) + digits_value(e),
    decreases e.len(),
{
    if e.len() == 0 {
        assert(d + e =~= d);
        assert(pow(10, 0) == 1) by {
            reveal(pow);
        }
    } else {
        let e0 = e.drop_last();
        lemma_digits_value_concat(d, e0);
        assert((d + e).drop_last() =~= d + e0);
        assert((d + e).last() == e.last());
        assert(pow(10, e.len()) == 10 * pow(10, e0.len())) by {
            reveal(pow);
        }
        let a = digits_value(d);
        let p = pow(10, e0.len());
        let b = digits_value(e0);
        assert((a * p + b) * 10 == a * (10 * p) + b * 10) by (nonlinear_arith);
    }
}

/// A PID file holding a process id in decimal digits followed by a line feed
/// is read as exactly that number: trimming removes the line feed and no
/// digit, and the digits are read whole.
pub proof fn lemma_pid_line_is_read_whole(d: Seq<char>)
    requires
        d.len() > 0,
        all_digits(d),
        digits_value(d) <= i32::MAX,
    ensures
        trimmed(d + seq!['\n']) == d,
        i32_text_value(trimmed(d + seq!['\n'])) == Some(digits_value(d) as i32),
{
    let s = d + seq!['\n'];
    let n = s.len() as int;
    let (i, j) = lemma_trimmed_drops_only_white_space(s);
    assert forall|k: int| 0 <= k < d.len() implies !is_white_space(#[trigger] s[k]) by {
        assert(s[k] == d[k]);
        assert(is_digit(d[k]));
        lemma_white_space_in_ascii(d[k]);
    }
    lemma_white_space_in_ascii('\n');
    assert(s[n - 1] == '\n');
    if i > 0 {
        assert(is_white_space(s[0]));
    }
    if j == n {
        assert(!is_white_space(s[j - 1]));
    }
    if j < n - 1 {
        assert(is_white_space(s[n - 2]));
    }
    assert(i == 0 && j == n - 1);
    assert(s.subrange(0, n - 1) =~= d);
    assert(is_digit(d[0]));
    lemma_digits_value_nonnegative(d);
}

/// What starting the daemon has learnt so far.
pub enum StartEvent {
    /// Nothing yet.
    Begin,
    /// The PID file was read (`None`: it could not be read).
    PidFileRead(Option<String>),
    /// `kill -0 pid` ran (`None`: it could not be run; otherwise whether it succeeded).
    ProbeFinished { pid: i32, status: Option<bool> },
    /// Detaching as a daemon ended so.
    Daemonized(DaemonizeOutcome),
}

/// How detaching as a daemon ended.
#[derive(Debug, Clone, Copy, PartialEq, Eq)]
pub enum DaemonizeOutcome {
    /// The process now runs as the daemon.
    Started,
    /// Preparing the directory or the output files failed.
    SetupFailed,
    /// The detaching itself failed.
    StartFailed,
}

/// What starting the daemon does next.
#[derive(Debug, Clone, Copy, PartialEq, Eq)]
pub enum StartAction {
    /// Read the PID file.
    ReadPidFile,
    /// Ask whether a process with this id exists (`kill -0`).
    Probe(i32),
    /// Prepare the directory and output files and detach.
    Daemonize,
    /// Report that the server already runs with this id, and exit with status 1.
    ExitAlreadyRunning(i32),
    /// Report the failure to detach, and exit with status 1.
    ExitStartFailed,
    /// Return the error of the preparation.
    ReturnSetupError,
    /// Return success.
    Done,
}

/// One step of starting the daemon. A readable PID file naming a process
/// that answers `kill -0` means the server already runs; in every other case
/// the daemon is started.
pub fn start_step(event: StartEvent) -> (r: StartAction)
    ensures
        event is Begin ==> r == StartAction::ReadPidFile,
        event matches StartEvent::PidFileRead(None) ==> r == StartAction::Daemonize,
        event matches StartEvent::PidFileRead(Some(c)) ==> match i32_text_value(trimmed(c@)) {
            Some(pid) => r == StartAction::Probe(pid),
            None => r == StartAction::Daemonize,
        },
        event matches StartEvent::ProbeFinished { pid, status } ==> (if status == Some(true) {
            r == StartAction::ExitAlreadyRunning(pid)
        } else {
            r == StartAction::Daemonize
        }),
        event matches StartEvent::Daemonized(o) ==> r == match o {
            DaemonizeOutcome::Started => StartAction::Done,
            DaemonizeOutcome::SetupFailed => StartAction::ReturnSetupError,
            DaemonizeOutcome::StartFailed => StartAction::ExitStartFailed,
        },
{
    match event {
        StartEvent::Begin => StartAction::ReadPidFile,
        StartEvent::PidFileRead(None) => StartAction::Daemonize,
        StartEvent::PidFileRead(Some(c)) => match parse_pid(c.as_str()) {
            Ok(pid) => StartAction::Probe(pid),
            Err(_) => StartAction::Daemonize,
        },
        StartEvent::ProbeFinished { pid, status } => match status {
            Some(true) => StartAction::ExitAlreadyRunning(pid),
            _ => StartAction::Daemonize,
        },
        StartEvent::Daemonized(o) => match o {
            DaemonizeOutcome::Started => StartAction::Done,
            DaemonizeOutcome::SetupFailed => StartAction::ReturnSetupError,
            DaemonizeOutcome::StartFailed => StartAction::ExitStartFailed,
        },
    }
}

/// What stopping the daemon has learnt so far.
pub enum StopEvent {
    /// Whether the PID file exists.
    Begin { pid_file_exists: bool },
    /// The PID file was read (`None`: reading failed).
    PidFileRead(Option<String>),
    /// `kill pid` ran (`None`: it could not be run; otherwise whether it succeeded).
    TermSent { pid: i32, status: Option<bool> },
    /// The second `kill pid` ran, as above.
    Rechecked { pid: i32, status: Option<bool> },
}

/// What stopping the daemon does next.
#[derive(Debug)]
pub enum StopAction {
    /// Report that there is no PID file, and exit with status 1.
    ExitNoPidFile,
    /// Read the PID file.
    ReadPidFile,
    /// Return the I/O error of the last step.
    ReturnIoError,
    /// Return the error of reading the process id.
    ReturnParseError(PidError),
    /// Send the terminate signal to this process.
    SendTerm(i32),
    /// Send the same plain `kill` once more.
    Recheck(i32),
    /// The first signal succeeded: remove the PID file and return success.
    RemoveStoppedPidFile(i32),
    /// The second signal failed: report the PID file as stale, remove it and
    /// return success. A failing `kill` does not tell a process that is gone
    /// from one that may not be signalled (permission denied), so in the
    /// latter case too the file is removed.
    RemoveStalePidFile(i32),
    /// The second signal succeeded although the first failed: report that the
    /// process cannot be stopped, keep the file, and exit with status 1.
    ExitCannotStop(i32),
}

/// One step of stopping the daemon. Without a PID file it fails; otherwise
/// the id read from the file is signalled with a plain `kill`. The file is
/// removed when that signal succeeds. When it fails, the same `kill` is sent
/// again: if that fails too, for whatever reason (the process is gone, or it
/// may not be signalled), the file is removed as stale; if it succeeds, the
/// process is reported as impossible to stop and the file stays.
pub fn stop_step(event: StopEvent) -> (r: StopAction)
    ensures
        event matches StopEvent::Begin { pid_file_exists } ==> (if pid_file_exists {
            r is ReadPidFile
        } else {
            r is ExitNoPidFile
        }),
        event matches StopEvent::PidFileRead(None) ==> r is ReturnIoError,
        event matches StopEvent::PidFileRead(Some(c)) ==> match i32_text_value(trimmed(c@)) {
            Some(pid) => r matches StopAction::SendTerm(p) && p == pid,
            None => r matches StopAction::ReturnParseError(e) && error_kind_fits(
                trimmed(c@),
                e.kind,
            ),
        },
        event matches StopEvent::TermSent { pid, status } ==> match status {
            None => r is ReturnIoError,
            Some(true) => r matches StopAction::RemoveStoppedPidFile(p) && p == pid,
            Some(false) => r matches StopAction::Recheck(p) && p == pid,
        },
        event matches StopEvent::Rechecked { pid, status } ==> match status {
            None => r is ReturnIoError,
            Some(false) => r matches StopAction::RemoveStalePidFile(p) && p == pid,
            Some(true) => r matches StopAction::ExitCannotStop(p) && p == pid,
        },
{
    match event {
        StopEvent::Begin { pid_file_exists } => {
            if pid_file_exists {
                StopAction::ReadPidFile
            } else {
                StopAction::ExitNoPidFile
            }
        },
        StopEvent::PidFileRead(None) => StopAction::ReturnIoError,
        StopEvent::PidFileRead(Some(c)) => match parse_pid(c.as_str()) {
            Ok(pid) => StopAction::SendTerm(pid),
            Err(e) => StopAction::ReturnParseError(e),
        },
        StopEvent::TermSent { pid, status } => match status {
            None => StopAction::ReturnIoError,
            Some(true) => StopAction::RemoveStoppedPidFile(pid),
            Some(false) => StopAction::Recheck(pid),
        },
        StopEvent::Rechecked { pid, status } => match status {
            None => StopAction::ReturnIoError,
            Some(false) => StopAction::RemoveStalePidFile(pid),
            Some(true) => StopAction::ExitCannotStop(pid),
        },
    }
}

} // verus!
