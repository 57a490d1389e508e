//! Pattern search in text, done by the `regex` crate behind one wrapper whose
//! contract is taken on trust.

use vstd::prelude::*;
use crate::codec::text_view;

verus! {

/// What searching `text` for `pattern` gives: the part of `text` that the
/// first capture group of the leftmost match covers.  `None` where `pattern`
/// is no valid expression, where nothing in `text` matches, or where the match
/// leaves that group out.
pub uninterp spec fn first_capture(pattern: Seq<char>, text: Seq<char>) -> Option<Seq<char>>;

/// Compiles `pattern` with `regex::Regex::new`, searches `text` with
/// `Regex::captures` and copies out group 1 (`Captures::get`, `Match::as_str`).
/// Trusted: the outcome is a function of the two strings alone; a pattern that
/// does not compile, a text without a match and a group that took no part all
/// come back as `None`.
#[verifier::external_body]
pub(crate) fn capture_first(pattern: &str, text: &str) -> (out: Option<String>)
    ensures
        text_view(out) == first_capture(pattern@, text@),
{
    match regex::Regex::new(pattern) {
        Ok(re) => re.captures(text).and_then(|c| c.get(1)).map(|m| m.as_str().to_string()),
        Err(_) => None,
    }
}

} // verus!
