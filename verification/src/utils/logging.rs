//! What the log shows, and how a line of it reads.

use crate::text::{concat2, decimal, decimal_string};
use vstd::prelude::*;
use vstd::string::*;

verus! {

/// How much the log shows.
#[derive(Debug, Clone, Copy, PartialEq, Eq, Structural)]
pub enum LogLevel {
    Info,
    Debug,
    Trace,
}

/// The level for a number of verbosity flags: the more flags, the more is
/// shown.
pub open spec fn spec_level_for(verbosity: usize) -> LogLevel {
    if verbosity == 0 {
        LogLevel::Info
    } else if verbosity == 1 {
        LogLevel::Debug
    } else {
        LogLevel::Trace
    }
}

/// A number in at least two digits.
pub open spec fn two_digits(n: u32) -> Seq<char> {
    if n < 10 {
        "0"@ + decimal(n as nat)
    } else {
        decimal(n as nat)
    }
}

/// A line of the log: the level in brackets, the time of day, the message.
pub open spec fn spec_format_log_entry(
    level: Seq<char>,
    hour: u32,
    minute: u32,
    second: u32,
    message: Seq<char>,
) -> Seq<char> {
    "[ "@ + level + " ] "@ + two_digits(hour) + ":"@ + two_digits(minute) + ":"@ + two_digits(second)
        + " "@ + message
}

/// The level that `verbosity` flags ask for.
pub fn level_for(verbosity: usize) -> (r: LogLevel)
    ensures
        r == spec_level_for(verbosity),
{
    match verbosity {
        0 => LogLevel::Info,
        1 => LogLevel::Debug,
        _ => LogLevel::Trace,
    }
}

/// `n` in at least two digits.
fn padded(n: u32) -> (r: String)
    ensures
        r@ == two_digits(n),
{
    if n < 10 {
        concat2("0", decimal_string(n as u64).as_str())
    } else {
        decimal_string(n as u64)
    }
}

/// One line of the log. `level` is the level as it is to be shown.
pub fn format_log_entry(level: &str, hour: u32, minute: u32, second: u32, message: &str) -> (r:
    String)
    ensures
        r@ == spec_format_log_entry(level@, hour, minute, second, message@),
{
    String::from_str("[ ").concat(level).concat(" ] ").concat(padded(hour).as_str()).concat(
        ":",
    ).concat(padded(minute).as_str()).concat(":").concat(padded(second).as_str()).concat(
        " ",
    ).concat(message)
}

} // verus!
