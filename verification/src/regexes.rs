//! Trusted boundary to the regex engine.
//!
//! Two report figures and one presence test come from regular-expression
//! matching rather than plain substring search. The engine's answers are
//! functions of the pattern and the text alone, so they are carried by
//! named, otherwise unspecified results.

use vstd::prelude::*;

verus! {

/// Whether the engine accepts `pattern`; `regex::Regex::new` succeeds or
/// fails after the pattern alone.
pub uninterp spec fn regex_pattern_ok(pattern: Seq<char>) -> bool;

/// The number of successive non-overlapping matches of the compiled
/// `pattern` in `text`, as `regex::Regex::find_iter` yields them.
pub uninterp spec fn regex_match_count(pattern: Seq<char>, text: Seq<char>) -> nat;

/// Whether the compiled `pattern` matches somewhere in `text`, as
/// `regex::Regex::is_match` reports.
pub uninterp spec fn regex_found(pattern: Seq<char>, text: Seq<char>) -> bool;

/// Relies on regex::Regex::new, whose success depends on the pattern alone,
/// and regex::Regex::find_iter, which yields the successive non-overlapping
/// matches of the pattern in the text, a function of the two arguments.
#[verifier::external_body]
pub(crate) fn regex_count_matches(pattern: &str, text: &str) -> (r: Option<usize>)
    ensures
        r is Some <==> regex_pattern_ok(pattern@),
        r matches Some(n) ==> n as nat == regex_match_count(pattern@, text@),
{
    match regex::Regex::new(pattern) {
        Ok(re) => Some(re.find_iter(text).count()),
        Err(_) => None,
    }
}

/// Relies on regex::Regex::new, whose success depends on the pattern alone,
/// and regex::Regex::is_match, which reports whether the pattern matches
/// anywhere in the text, a function of the two arguments.
#[verifier::external_body]
pub(crate) fn regex_search(pattern: &str, text: &str) -> (r: Option<bool>)
    ensures
        r is Some <==> regex_pattern_ok(pattern@),
        r matches Some(b) ==> b == regex_found(pattern@, text@),
{
    match regex::Regex::new(pattern) {
        Ok(re) => Some(re.is_match(text)),
        Err(_) => None,
    }
}

} // verus!
