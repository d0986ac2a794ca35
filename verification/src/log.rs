//! What goes into the file logs: the line format and where the file lies.

use vstd::prelude::*;
use crate::text::{decimal, decimal_string, parsed_u64, decimal_reads_back};

verus! {

/// A log line: the Unix time in seconds in brackets, a space, the message.
pub open spec fn log_line_text(secs: u64, msg: Seq<char>) -> Seq<char> {
    "["@ + decimal(secs as nat) + "] "@ + msg
}

/// Formats a log line as `[<secs>] <msg>`.
pub fn log_line(secs: u64, msg: &str) -> (line: String)
    ensures
        line@ == log_line_text(secs, msg@),
{
    let mut line = String::from_str("[");
    let digits = decimal_string(secs);
    line.append(digits.as_str());
    line.append("] ");
    line.append(msg);
    line
}

/// The directory used when neither environment variable is set.
pub open spec fn default_dir() -> Seq<char> {
    "C:\\Temp"@
}

/// The first of two environment values that is set, else `C:\Temp`.
pub fn fallback_dir(first: Option<String>, second: Option<String>) -> (dir: String)
    ensures
        match (first, second) {
            (Some(a), _) => dir == a,
            (None, Some(b)) => dir == b,
            (None, None) => dir@ == default_dir(),
        },
{
    match first {
        Some(a) => a,
        None => match second {
            Some(b) => b,
            None => String::from_str("C:\\Temp"),
        },
    }
}

/// The log file of a product, as path components:
/// `<base>/<log_dir>/updater.log`.
pub fn log_file_path(base: &str, log_dir: &str) -> (parts: Vec<String>)
    ensures
        parts@.map_values(|p: String| p@) == seq![base@, log_dir@, "updater.log"@],
{
    let mut parts: Vec<String> = Vec::new();
    parts.push(String::from_str(base));
    parts.push(String::from_str(log_dir));
    parts.push(String::from_str("updater.log"));
    assert(parts@.map_values(|p: String| p@) =~= seq![base@, log_dir@, "updater.log"@]);
    parts
}

/// A log line is `[`, the time, `] ` and the message: the time written
/// between the brackets reads back as the same number of seconds, and the
/// message follows unchanged after the bracket and a space.
pub proof fn log_line_carries_time_and_message(secs: u64, msg: Seq<char>)
    ensures
        ({
            let line = log_line_text(secs, msg);
            let d = decimal(secs as nat).len() as int;
            &&& line.len() == d + 3 + msg.len()
            &&& line[0] == '['
            &&& line[d + 1] == ']'
            &&& line[d + 2] == ' '
            &&& parsed_u64(line.subrange(1, d + 1)) == Some(secs)
            &&& line.skip(d + 3) == msg
        }),
{
    reveal_strlit("[");
    reveal_strlit("] ");
    let line = log_line_text(secs, msg);
    let d = decimal(secs as nat).len() as int;
    assert(line.subrange(1, d + 1) =~= decimal(secs as nat));
    assert(line.skip(d + 3) =~= msg);
    decimal_reads_back(secs);
}

} // verus!
