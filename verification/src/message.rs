//! The text that reports a failed command to the front-end.
//!
//! Every failure collapses into one message: a fixed opening that names the
//! command, followed by whatever description came with the failure.

use vstd::prelude::*;

verus! {

/// How the message of every failed read opens.
pub open spec fn read_failure_prefix() -> Seq<char> {
    "Failed to read file: "@
}

/// How the message of every failed write opens.
pub open spec fn write_failure_prefix() -> Seq<char> {
    "Failed to write file: "@
}

/// The message for a read that failed for the reason `description`.
pub open spec fn read_failure_message(description: Seq<char>) -> Seq<char> {
    read_failure_prefix() + description
}

/// The message for a write that failed for the reason `description`.
pub open spec fn write_failure_message(description: Seq<char>) -> Seq<char> {
    write_failure_prefix() + description
}

/// Builds the message for a read that failed for the reason `description`.
pub fn read_failure(description: &str) -> (message: String)
    ensures
        message@ == read_failure_message(description@),
{
    String::from_str("Failed to read file: ").concat(description)
}

/// Builds the message for a write that failed for the reason `description`.
pub fn write_failure(description: &str) -> (message: String)
    ensures
        message@ == write_failure_message(description@),
{
    String::from_str("Failed to write file: ").concat(description)
}

} // verus!
