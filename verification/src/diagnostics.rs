//! The diagnostics log: when it starts afresh, where output goes, and the lines
//! that delimit runs and record panics.

use vstd::prelude::*;

use crate::config::prefixed;
use crate::text::{self, to_decimal};

verus! {

/// A log longer than this is started afresh.
pub const MAX_LOG_BYTES: u64 = 1_000_000;

/// Whether the log is to be started afresh; `len` is its length, if there is one.
/// Otherwise the run is appended.
pub fn starts_afresh(len: Option<u64>) -> (r: bool)
    ensures
        r == (len matches Some(n) && n > MAX_LOG_BYTES),
{
    match len {
        Some(n) => n > MAX_LOG_BYTES,
        None => false,
    }
}

/// Whether standard output is to be redirected to the log: if it could be opened
/// and nobody watches a terminal.
pub fn redirects(opened: bool, on_terminal: bool) -> (r: bool)
    ensures
        r == (opened && !on_terminal),
{
    opened && !on_terminal
}

/// The line that a run begins with.
pub fn start_banner(version: &str, unix_secs: u64) -> (r: String)
    ensures
        r@ == "\n===== Holler v"@ + version@ + " started (unix "@ + text::decimal(unix_secs as nat)
            + ") ====="@,
{
    let mut r = prefixed("\n===== Holler v", version);
    r.append(" started (unix ");
    r.append(to_decimal(unix_secs).as_str());
    r.append(") =====");
    r
}

/// A place in a source file.
#[derive(Debug, PartialEq, Eq)]
pub struct Place {
    pub file: String,
    pub line: u32,
    pub column: u32,
}

/// A place as `file:line:column`, or that it is unknown.
pub open spec fn place_text(place: Option<Place>) -> Seq<char> {
    match place {
        Some(p) => p.file@ + ":"@ + text::decimal(p.line as nat) + ":"@ + text::decimal(
            p.column as nat,
        ),
        None => "<unknown>"@,
    }
}

/// What is recorded of a panic.
pub fn panic_banner(unix_secs: u64, place: &Option<Place>, message: &str) -> (r: String)
    ensures
        r@ == "\n===== PANIC (unix "@ + text::decimal(unix_secs as nat) + ") at "@ + place_text(
            *place,
        ) + " =====\n"@ + message@ + "\n"@,
{
    let at: String = match place {
        Some(p) => {
            let mut t = prefixed(p.file.as_str(), ":");
            t.append(to_decimal(p.line as u64).as_str());
            t.append(":");
            t.append(to_decimal(p.column as u64).as_str());
            t
        },
        None => "<unknown>".to_owned(),
    };
    let mut r = prefixed("\n===== PANIC (unix ", to_decimal(unix_secs).as_str());
    r.append(") at ");
    r.append(at.as_str());
    r.append(" =====\n");
    r.append(message);
    r.append("\n");
    r
}

/// The message of a panic: its payload if that is text, in either form.
pub fn payload_str<'a>(literal: Option<&'a str>, owned: Option<&'a str>) -> (r: &'a str)
    ensures
        r@ == (match literal {
            Some(s) => s@,
            None => match owned {
                Some(s) => s@,
                None => "Box<dyn Any>"@,
            },
        }),
{
    match literal {
        Some(s) => s,
        None => match owned {
            Some(s) => s,
            None => "Box<dyn Any>",
        },
    }
}

/// Seconds since 1970 from the clock's reading; a clock before that counts as 0.
pub fn unix_secs(since_epoch: Option<u64>) -> (r: u64)
    ensures
        r == (match since_epoch {
            Some(s) => s,
            None => 0,
        }),
{
    match since_epoch {
        Some(s) => s,
        None => 0,
    }
}

/// A place is told as file, line and column, as compilers do.
pub proof fn places_are_told_as_compilers_do(p: Place)
    ensures
        place_text(Some(p)) == p.file@ + ":"@ + text::decimal(p.line as nat) + ":"@
            + text::decimal(p.column as nat),
        p.file@.is_prefix_of(place_text(Some(p))),
        place_text(None) == "<unknown>"@,
{
    let t = place_text(Some(p));
    assert(p.file@ =~= t.subrange(0, p.file@.len() as int));
}

} // verus!
