//! The two commands, from what the file system answered to what the
//! front-end is told.
//!
//! A command has exactly two outcomes. A read that went well replies with the
//! content of the file; a write that went well replies with nothing. Anything
//! else, whatever its cause, replies with a message for a human reader.

use crate::encoding::{decode_content, decoded};
use crate::message::{
    read_failure,
    read_failure_message,
    write_failure,
    write_failure_message,
};
use vstd::prelude::*;

verus! {

/// Why bytes that are not text cannot be read.
pub open spec fn invalid_text_description() -> Seq<char> {
    "stream did not contain valid UTF-8"@
}

/// The reply to a read, given what reading the file gave: its bytes, or the
/// description of what went wrong.
pub open spec fn read_reply(outcome: Result<Seq<u8>, Seq<char>>) -> Result<Seq<char>, Seq<char>> {
    match outcome {
        Ok(bytes) => match decoded(bytes) {
            Some(content) => Ok(content),
            None => Err(read_failure_message(invalid_text_description())),
        },
        Err(description) => Err(read_failure_message(description)),
    }
}

/// The reply to a write, given what writing the file gave: nothing, or the
/// description of what went wrong.
pub open spec fn write_reply(outcome: Result<(), Seq<char>>) -> Result<(), Seq<char>> {
    match outcome {
        Ok(done) => Ok(done),
        Err(description) => Err(write_failure_message(description)),
    }
}

/// What reading a file gave, as plain sequences.
pub open spec fn read_outcome_view(outcome: Result<Vec<u8>, String>) -> Result<
    Seq<u8>,
    Seq<char>,
> {
    match outcome {
        Ok(bytes) => Ok(bytes@),
        Err(description) => Err(description@),
    }
}

/// What writing a file gave, or what a write replies, as plain sequences.
pub open spec fn write_result_view(outcome: Result<(), String>) -> Result<(), Seq<char>> {
    match outcome {
        Ok(done) => Ok(done),
        Err(description) => Err(description@),
    }
}

/// The reply to a read, as plain sequences.
pub open spec fn read_reply_view(reply: Result<String, String>) -> Result<Seq<char>, Seq<char>> {
    match reply {
        Ok(content) => Ok(content@),
        Err(message) => Err(message@),
    }
}

/// Answers a `read_file` command once the file has been read.
///
/// `outcome` is what reading the whole file gave. Its bytes come back as the
/// content where they are text; bytes that are not text, and every failure of
/// the read itself, come back as a message.
pub fn read_file(outcome: Result<Vec<u8>, String>) -> (reply: Result<String, String>)
    ensures
        read_reply_view(reply) == read_reply(read_outcome_view(outcome)),
{
    match outcome {
        Ok(bytes) => match decode_content(bytes) {
            Some(content) => Ok(content),
            None => Err(read_failure("stream did not contain valid UTF-8")),
        },
        Err(description) => Err(read_failure(description.as_str())),
    }
}

/// Answers a `write_file` command once the file has been written.
///
/// `outcome` is what writing the file gave. A write that went well is
/// confirmed; every failure comes back as a message.
pub fn write_file(outcome: Result<(), String>) -> (reply: Result<(), String>)
    ensures
        write_result_view(reply) == write_reply(write_result_view(outcome)),
{
    match outcome {
        Ok(done) => Ok(done),
        Err(description) => Err(write_failure(description.as_str())),
    }
}

} // verus!
