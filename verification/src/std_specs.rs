//! What the library takes on trust from the standard library, where `vstd`
//! says nothing of a function that it calls.
//!
//! Nothing in this file is proved.

use vstd::prelude::*;
use vstd::utf8::{decode_utf8, valid_utf8};

verus! {

/// The error of `std::string::String::from_utf8`. Nothing is known of what
/// is inside a value.
#[verifier::external_type_specification]
#[verifier::external_body]
pub struct ExFromUtf8Error(std::string::FromUtf8Error);

/// `std::string::String::from_utf8`: the bytes become a string where they
/// are valid UTF-8, and the string is the text that they encode; else an
/// error comes back.
pub assume_specification[ String::from_utf8 ](bytes: Vec<u8>) -> (result: Result<
    String,
    std::string::FromUtf8Error,
>)
    ensures
        result is Ok <==> valid_utf8(bytes@),
        result matches Ok(text) ==> text@ == decode_utf8(bytes@),
;

/// `std::string::String::push`: the character is added at the end.
pub assume_specification[ String::push ](text: &mut String, c: char)
    ensures
        final(text)@ == old(text)@.push(c),
;

/// `==` on `str`: whether the two hold the same characters.
pub assume_specification[ <str as PartialEq>::eq ](left: &str, right: &str) -> (result: bool)
    ensures
        result == (left@ == right@),
;

} // verus!
