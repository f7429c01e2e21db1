//! The record that a running background process leaves of itself.

use vstd::prelude::*;

use crate::text::{chars_of, decimal_i32, parse_decimal_i32, trim, trimmed};

verus! {

/// The process number that the content of a process-number file writes:
/// a decimal 32-bit integer with nothing but white space around it.
pub open spec fn pid_in(content: Seq<char>) -> Option<i32> {
    decimal_i32(trimmed(content))
}

/// The process number in the content of a process-number file, or nothing
/// when the content does not write one.
pub fn parse_pid(content: &str) -> (pid: Option<i32>)
    ensures
        pid == pid_in(content@),
{
    let content_chars = chars_of(content);
    let word = trim(&content_chars);
    parse_decimal_i32(&word)
}

/// Whether the background process runs: a process number is on record and a
/// process with that number is alive. `alive` is only looked at where a
/// number is on record.
pub fn is_running(pid: Option<i32>, alive: bool) -> (running: bool)
    ensures
        running == (pid is Some && alive),
{
    match pid {
        Some(_) => alive,
        None => false,
    }
}

} // verus!
