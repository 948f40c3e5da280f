//! The lines that two concurrent workers write, one line each.
//!
//! Spawning the workers and waiting for them is left to the caller: this
//! module only says what each of them writes.

use vstd::prelude::*;
use crate::decimal::{decimal, decimal_string, natural_digits};

verus! {

/// The line that the worker with the given number writes.
pub open spec fn greeting_line(thread: nat) -> Seq<char> {
    "Running in thread "@ + decimal(thread as int) + "!"@
}

/// The line for one worker: "Running in thread ", its number, "!".
pub fn greeting(thread: u32) -> (line: String)
    ensures
        line@ == greeting_line(thread as nat),
{
    let mut line = "Running in thread ".to_string();
    line.append(decimal_string(thread as i64).as_str());
    line.append("!");
    line
}

/// The lines this demonstration writes, one per worker, in the order in which
/// the workers are started. The order in which they appear is up to the
/// scheduler.
pub fn output() -> (lines: Vec<String>)
    ensures
        lines@.len() == 2,
        lines@[0]@ == "Running in thread 1!"@,
        lines@[1]@ == "Running in thread 2!"@,
{
    let mut lines = Vec::with_capacity(2);
    lines.push(greeting(1));
    lines.push(greeting(2));
    proof {
        reveal_strlit("Running in thread ");
        reveal_strlit("!");
        reveal_strlit("Running in thread 1!");
        reveal_strlit("Running in thread 2!");
        assert(natural_digits(1) == seq!['1']);
        assert(natural_digits(2) == seq!['2']);
        assert(greeting_line(1) == "Running in thread 1!"@);
        assert(greeting_line(2) == "Running in thread 2!"@);
    }
    lines
}

} // verus!
