//! An operation that reports failure through its return value, and the line
//! that tells which of the two outcomes occurred.

use vstd::prelude::*;
use crate::decimal::{decimal, decimal_string};

verus! {

/// What `do_something` returns: the failure variant, carrying the message
/// "Some error".
pub open spec fn is_failure(outcome: Result<i32, String>) -> bool {
    outcome matches Err(message) && message@ == "Some error"@
}

/// The line that reports an outcome: "Success: " and the value in decimal, or
/// "Error: " and the message.
pub open spec fn outcome_line(outcome: Result<i32, String>) -> Seq<char> {
    match outcome {
        Ok(value) => "Success: "@ + decimal(value as int),
        Err(message) => "Error: "@ + message@,
    }
}

/// Fails, on every call, with the message "Some error".
pub fn do_something() -> (outcome: Result<i32, String>)
    ensures
        is_failure(outcome),
{
    Err("Some error".to_string())
}

/// Renders an outcome as the line that reports it. Both variants are handled,
/// though `do_something` only ever produces one of them.
pub fn render(outcome: &Result<i32, String>) -> (line: String)
    ensures
        line@ == outcome_line(*outcome),
{
    match outcome {
        Ok(value) => {
            let mut line = "Success: ".to_string();
            line.append(decimal_string(*value as i64).as_str());
            line
        },
        Err(message) => {
            let mut line = "Error: ".to_string();
            line.append(message.as_str());
            line
        },
    }
}

/// The one line this demonstration writes: "Error: Some error".
pub fn output() -> (line: String)
    ensures
        line@ == "Error: Some error"@,
{
    let outcome = do_something();
    proof {
        lemma_failure_line(outcome, outcome);
    }
    render(&outcome)
}

/// A failure always gives the same line: whatever two calls of
/// `do_something` return, both are rendered as "Error: Some error".
pub proof fn lemma_failure_line(first: Result<i32, String>, second: Result<i32, String>)
    requires
        is_failure(first),
        is_failure(second),
    ensures
        outcome_line(first) == "Error: Some error"@,
        outcome_line(second) == outcome_line(first),
{
    reveal_strlit("Error: ");
    reveal_strlit("Some error");
    reveal_strlit("Error: Some error");
    assert(outcome_line(first) =~= "Error: Some error"@);
    assert(outcome_line(second) =~= "Error: Some error"@);
}

} // verus!
