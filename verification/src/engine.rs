//! The pattern engine: the `regex` crate, as far as this library uses it.
//!
//! Nothing in this file is proved. Each item states what the library takes
//! on trust from the engine.

use vstd::prelude::*;

verus! {

/// A compiled expression of the `regex` crate. Nothing is known of what is
/// inside a value.
#[verifier::external_type_specification]
#[verifier::external_body]
pub struct ExRegex(regex::Regex);

/// The error of `regex::Regex::new`. Nothing is known of what is inside a
/// value.
#[verifier::external_type_specification]
#[verifier::external_body]
pub struct ExRegexError(regex::Error);

/// Whether `regex::Regex::new` accepts a pattern.
pub uninterp spec fn regex_accepts(pattern: Seq<char>) -> bool;

/// The pattern that a compiled expression was made from, which is what
/// `regex::Regex::as_str` returns of it.
pub uninterp spec fn regex_pattern(regex: regex::Regex) -> Seq<char>;

/// What `regex::Regex::captures` finds in a haystack for an expression that
/// `regex::Regex::new` made from a pattern: nothing where the expression
/// matches nowhere, else the groups of the leftmost match. The overall match
/// is the first group, the others follow in the order of their opening
/// parentheses, and a group that took no part in the match is `None`.
pub uninterp spec fn regex_captures(pattern: Seq<char>, haystack: Seq<char>) -> Option<
    Seq<Option<Seq<char>>>,
>;

/// Calls `regex::Regex::new`, which compiles a pattern with the engine's
/// default options. Trusted: the pattern is accepted or refused by its text
/// alone, and an expression that comes back was made from that text.
#[verifier::external_body]
pub(crate) fn compile(pattern: &str) -> (result: Result<regex::Regex, regex::Error>)
    ensures
        result is Ok <==> regex_accepts(pattern@),
        result matches Ok(regex) ==> regex_pattern(regex) == pattern@,
{
    regex::Regex::new(pattern)
}

/// Calls `regex::Regex::captures` and copies the text of each group out of
/// the haystack. Trusted: what is found depends on the expression and the
/// haystack alone, and two expressions compiled from one pattern find the
/// same. This is claimed of expressions that `compile` made, with the
/// engine's default options; the library holds no others.
#[verifier::external_body]
pub(crate) fn captures(regex: &regex::Regex, haystack: &str) -> (result: Option<
    Vec<Option<String>>,
>)
    ensures
        result.deep_view() == regex_captures(regex_pattern(*regex), haystack@),
{
    regex.captures(haystack).map(
        |found| found.iter().map(|group| group.map(|part| part.as_str().to_string())).collect(),
    )
}

} // verus!
