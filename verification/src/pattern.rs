//! Regular expressions, matched by the `regex` crate.

use vstd::prelude::*;

verus! {

/// What `regex::Regex::captures` finds of a pattern in a text: `None` where
/// the pattern does not compile or matches nowhere, else the texts of the
/// first and of the second capture group of the leftmost match, each `None`
/// where the pattern has no such group or the group took no part.
pub uninterp spec fn captured(pattern: Seq<char>, text: Seq<char>) -> Option<
    (Option<Seq<char>>, Option<Seq<char>>),
>;

/// Compiles the pattern with `regex::Regex::new`, searches the text with
/// `Regex::captures` and hands out what `Captures::get` gives for the
/// groups 1 and 2.
///
/// Trusted: the answer depends on the pattern and the text alone; nothing
/// is claimed of what it is.
#[verifier::external_body]
pub(crate) fn regex_captures(pattern: &str, text: &str) -> (groups: Option<
    (Option<String>, Option<String>),
>)
    ensures
        groups.deep_view() == captured(pattern@, text@),
{
    let regex = regex::Regex::new(pattern).ok()?;
    let captures = regex.captures(text)?;
    let first = match captures.get(1) {
        Some(found) => Some(found.as_str().to_string()),
        None => None,
    };
    let second = match captures.get(2) {
        Some(found) => Some(found.as_str().to_string()),
        None => None,
    };
    Some((first, second))
}

} // verus!
