//! What the library reads from an invocation of the compiler.

use vstd::prelude::*;
use vstd::utf8::{decode_utf8, valid_utf8};

verus! {

/// The text in which diagnostics are looked for after an invocation of the
/// compiler. An invocation that reports success has no diagnostics, whatever
/// it wrote: the text is empty. After any other, the text is what the
/// compiler wrote to its error stream, which has to be valid UTF-8: there is
/// no text where it is not.
pub open spec fn error_text_of(succeeded: bool, error_stream: Seq<u8>) -> Option<Seq<char>> {
    if succeeded {
        Some(Seq::empty())
    } else if valid_utf8(error_stream) {
        Some(decode_utf8(error_stream))
    } else {
        None
    }
}

/// The text in which diagnostics are looked for, from the exit status of the
/// compiler and the bytes of its error stream.
pub fn error_text(succeeded: bool, error_stream: Vec<u8>) -> (result: Option<String>)
    ensures
        result.deep_view() == error_text_of(succeeded, error_stream@),
{
    if succeeded {
        Some(String::new())
    } else {
        match String::from_utf8(error_stream) {
            Ok(text) => Some(text),
            Err(_) => None,
        }
    }
}

} // verus!
