//! What holds of the replies, for every content and every answer of the
//! file system.

use crate::commands::{invalid_text_description, read_reply, write_reply};
use crate::message::{read_failure_message, write_failure_message};
use vstd::prelude::*;
use vstd::utf8::*;

verus! {

/// A read that the file system refused never replies with content: the reply
/// is the failure message built around the file system's own description.
pub proof fn lemma_failed_read_is_reported(description: Seq<char>)
    ensures
        read_reply(Err(description)) == Err::<Seq<char>, Seq<char>>(
            read_failure_message(description),
        ),
{
}

/// A write that the file system refused is never confirmed: the reply is the
/// failure message built around the file system's own description.
pub proof fn lemma_failed_write_is_reported(description: Seq<char>)
    ensures
        write_reply(Err(description)) == Err::<(), Seq<char>>(write_failure_message(description)),
{
}

/// Round trip: a file that holds the bytes written for `content` reads back
/// as `content`, exactly.
pub proof fn lemma_written_content_reads_back(content: Seq<char>)
    ensures
        read_reply(Ok(encode_utf8(content))) == Ok::<Seq<char>, Seq<char>>(content),
{
    encode_utf8_valid_utf8(content);
    encode_utf8_decode_utf8(content);
}

/// Bytes that are not well-formed UTF-8 are never replied as content: the
/// read fails, with the message for text that cannot be decoded.
pub proof fn lemma_invalid_text_is_failure(bytes: Seq<u8>)
    requires
        !valid_utf8(bytes),
    ensures
        read_reply(Ok(bytes)) == Err::<Seq<char>, Seq<char>>(
            read_failure_message(invalid_text_description()),
        ),
{
}

/// Content is never garbled: whatever a read replies as content stands for
/// exactly the bytes that the file holds.
pub proof fn lemma_read_content_is_faithful(bytes: Seq<u8>, content: Seq<char>)
    requires
        read_reply(Ok(bytes)) == Ok::<Seq<char>, Seq<char>>(content),
    ensures
        encode_utf8(content) == bytes,
{
    decode_utf8_encode_utf8(bytes);
}

} // verus!
