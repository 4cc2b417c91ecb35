//! The process lifecycle: reading a detection command's output, preparing a
//! detached launch, and describing a running process.
//!
//! Running commands and querying the process table is the caller's part. It
//! hands over what it captured and carries out what is prepared here.

use crate::error::ManagerError;
use crate::text::{join, joined};
use vstd::prelude::*;

verus! {

/// What the process table holds of one process: its argument vector and its
/// start time in seconds since the Unix epoch.
#[derive(Clone, Debug, PartialEq, Eq)]
pub struct ProcessSnapshot {
    pub cmd: Vec<String>,
    pub start_time: u64,
}

/// A launch that the caller is to perform: `argv` is run with its standard
/// error merged into its standard output, that stream written to `log_path`,
/// its standard input detached, and the process detached from the
/// controlling session.
#[derive(Clone, Debug, PartialEq, Eq)]
pub struct Launch {
    pub argv: Vec<String>,
    pub log_path: String,
}

/// The instant `secs` seconds after the Unix epoch, read on a clock that is
/// `utc_offset` seconds ahead of UTC and written as `YYYY-MM-DD HH:MM:SS`;
/// `None` where the offset or the instant is outside what the calendar
/// library represents.
pub uninterp spec fn local_time_text(secs: int, utc_offset: int) -> Option<Seq<char>>;

/// The argument vector that runs `command` through the shell.
pub open spec fn shell_argv(command: Seq<char>) -> Seq<Seq<char>> {
    seq![seq!['b', 'a', 's', 'h'], seq!['-', 'c'], command]
}

/// Whole seconds from `start` to `now`; zero where `start` lies after `now`.
pub open spec fn elapsed_between(start: u64, now: u64) -> u64 {
    if start <= now {
        (now - start) as u64
    } else {
        0
    }
}

/// The start time of a process as text, where it can be written.
pub open spec fn started_text(start: u64, utc_offset: i32) -> Option<Seq<char>> {
    if start <= i64::MAX {
        local_time_text(start as int, utc_offset as int)
    } else {
        None
    }
}

/// The command line of a snapshot: its arguments joined by single spaces.
pub open spec fn command_line(cmd: Seq<Seq<char>>) -> Seq<char> {
    joined(cmd, seq![' '])
}

/// Formats an instant with chrono: `FixedOffset::east_opt` makes the zone,
/// `DateTime::from_timestamp` the instant, `NaiveDateTime::checked_add_offset`
/// moves it into the zone, and `format` with `%Y-%m-%d %H:%M:%S` writes it.
/// The contract claims only that the outcome is a function of the two
/// arguments; each of the first three steps gives `None` rather than panic.
#[verifier::external_body]
fn format_local_time(secs: i64, utc_offset: i32) -> (text: Option<String>)
    ensures
        text is Some <==> local_time_text(secs as int, utc_offset as int) is Some,
        text is Some ==> text->0@ == local_time_text(secs as int, utc_offset as int)->0,
{
    let zone = chrono::FixedOffset::east_opt(utc_offset)?;
    let instant = chrono::DateTime::from_timestamp(secs, 0)?;
    let local = instant.naive_utc().checked_add_offset(zone)?;
    Some(local.format("%Y-%m-%d %H:%M:%S").to_string())
}

/// Whether the output captured from a detection command says that the
/// process is running: it does as soon as it is not empty.
pub fn is_started(output: &str) -> (running: bool)
    ensures
        running == (output@.len() > 0),
{
    !output.is_empty()
}

/// The argument vector that runs `command` through the shell:
/// `bash -c <command>`.
pub fn shell_command(command: &str) -> (argv: Vec<String>)
    ensures
        argv.deep_view() == shell_argv(command@),
{
    proof {
        reveal_strlit("bash");
        reveal_strlit("-c");
        assert("bash"@ =~= seq!['b', 'a', 's', 'h']);
        assert("-c"@ =~= seq!['-', 'c']);
    }
    let mut argv: Vec<String> = Vec::new();
    argv.push(String::from_str("bash"));
    argv.push(String::from_str("-c"));
    argv.push(String::from_str(command));
    assert(argv.deep_view() =~= shell_argv(command@));
    argv
}

/// Prepares the detached launch of `command` with its output going to
/// `log_path`.
pub fn swpan(command: &str, log_path: &str) -> (launch: Launch)
    ensures
        launch.argv.deep_view() == shell_argv(command@),
        launch.log_path@ == log_path@,
{
    Launch { argv: shell_command(command), log_path: String::from_str(log_path) }
}

/// Whole seconds that a process started at `start` has run at `now`. A start
/// time after `now` is a clock anomaly.
pub fn elapsed_seconds(start: u64, now: u64) -> (elapsed: Result<u64, ManagerError>)
    ensures
        start <= now ==> elapsed == Ok::<u64, ManagerError>((now - start) as u64),
        start > now ==> elapsed == Err::<u64, ManagerError>(ManagerError::ClockError),
{
    if start <= now {
        Ok(now - start)
    } else {
        Err(ManagerError::ClockError)
    }
}

/// Describes a process from its snapshot and its start time as text: the
/// command line, that text, and the seconds it has run at `now`, with zero
/// in place of a negative time.
pub fn describe(snapshot: &ProcessSnapshot, started_at: String, now: u64) -> (info: (
    String,
    String,
    u64,
))
    ensures
        info.0@ == command_line(snapshot.cmd.deep_view()),
        info.1@ == started_at@,
        info.2 == elapsed_between(snapshot.start_time, now),
{
    proof {
        reveal_strlit(" ");
        assert(" "@ =~= seq![' ']);
    }
    let line = join(&snapshot.cmd, " ");
    let elapsed = match elapsed_seconds(snapshot.start_time, now) {
        Ok(seconds) => seconds,
        Err(_) => 0,
    };
    (line, started_at, elapsed)
}

/// Describes the process that `snapshot` was taken of: its command line, its
/// start time on a clock `utc_offset` seconds ahead of UTC, and the seconds
/// it has run at `now`. `None` where there is no such process, or where its
/// start time cannot be written.
pub fn get_process_info(snapshot: Option<ProcessSnapshot>, now: u64, utc_offset: i32) -> (info:
    Option<(String, String, u64)>)
    ensures
        match snapshot {
            None => info is None,
            Some(s) => match started_text(s.start_time, utc_offset) {
                None => info is None,
                Some(text) => {
                    &&& info matches Some(found)
                    &&& found.0@ == command_line(s.cmd.deep_view())
                    &&& found.1@ == text
                    &&& found.2 == elapsed_between(s.start_time, now)
                },
            },
        },
{
    match snapshot {
        None => None,
        Some(s) => {
            if s.start_time > 0x7fff_ffff_ffff_ffff {
                return None;
            }
            match format_local_time(s.start_time as i64, utc_offset) {
                None => None,
                Some(text) => Some(describe(&s, text, now)),
            }
        },
    }
}

} // verus!
