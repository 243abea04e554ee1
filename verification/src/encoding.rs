//! Text on disk: a file holds the UTF-8 bytes of its content.

use vstd::prelude::*;
use vstd::utf8::*;

verus! {

/// The error of `String::from_utf8`, made known to the verifier as a type
/// and never looked into.
#[verifier::external_type_specification]
#[verifier::external_body]
pub struct ExFromUtf8Error(std::string::FromUtf8Error);

/// `String::from_utf8` of the standard library, taken on trust: it accepts
/// exactly the byte vectors that are well-formed UTF-8, and the string it
/// then returns is made of the very bytes it was given.
pub assume_specification[ String::from_utf8 ](vec: Vec<u8>) -> (result: Result<
    String,
    std::string::FromUtf8Error,
>)
    ensures
        result is Ok <==> valid_utf8(vec@),
        result matches Ok(text) ==> encode_utf8(text@) == vec@,
;

/// The text that `bytes` hold, if they hold one: their decoding where they
/// are well-formed UTF-8, nothing otherwise.
pub open spec fn decoded(bytes: Seq<u8>) -> Option<Seq<char>> {
    if valid_utf8(bytes) {
        Some(decode_utf8(bytes))
    } else {
        None
    }
}

/// The bytes to put on disk for `content`.
pub fn content_bytes(content: &str) -> (bytes: &[u8])
    ensures
        bytes@ == encode_utf8(content@),
{
    content.as_bytes()
}

/// Turns the bytes of a file back into its content, or into nothing where
/// they are not text.
pub fn decode_content(bytes: Vec<u8>) -> (content: Option<String>)
    ensures
        match content {
            Some(text) => decoded(bytes@) == Some(text@),
            None => decoded(bytes@) is None,
        },
{
    match String::from_utf8(bytes) {
        Ok(text) => {
            proof {
                encode_utf8_decode_utf8(text@);
            }
            Some(text)
        },
        Err(_) => None,
    }
}

} // verus!
