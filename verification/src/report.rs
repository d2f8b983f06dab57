//! The lines of text in which a run tells of its progress.

use crate::stats::AcquisitionStats;
use crate::text::{append_decimal, decimal};
use vstd::prelude::*;
use vstd::string::*;

verus! {

/// The progress line of a tally: the resources at hand, the attempts, and
/// the failures.
pub open spec fn progress_text(stats: AcquisitionStats) -> Seq<char> {
    decimal(stats.successful as nat) + "/"@ + decimal(stats.total_attempted as nat) + " (Failed: "@
        + decimal(stats.failed as nat) + ")"@
}

/// The closing line of a run: the resources at hand, held against the goal.
pub open spec fn completion_text(successful: usize, goal: usize) -> Seq<char> {
    "Completed: "@ + decimal(successful as nat) + "/"@ + decimal(goal as nat) + " successful"@
}

/// Writes the progress line of a tally.
pub fn progress_message(stats: &AcquisitionStats) -> (line: String)
    ensures
        line@ == progress_text(*stats),
{
    let mut line = String::new();
    append_decimal(&mut line, stats.successful as u64);
    line.append("/");
    append_decimal(&mut line, stats.total_attempted as u64);
    line.append(" (Failed: ");
    append_decimal(&mut line, stats.failed as u64);
    line.append(")");
    assert(line@ =~= progress_text(*stats));
    line
}

/// Writes the closing line of a run.
pub fn completion_message(successful: usize, goal: usize) -> (line: String)
    ensures
        line@ == completion_text(successful, goal),
{
    let mut line = String::from_str("Completed: ");
    append_decimal(&mut line, successful as u64);
    line.append("/");
    append_decimal(&mut line, goal as u64);
    line.append(" successful");
    line
}

} // verus!
