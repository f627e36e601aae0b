//! The boundary to the `regex` crate.
//!
//! What a pattern means is not modelled here. What a search and what a
//! replacement return are given names, and the three functions of this
//! module are believed to return exactly that. A pattern that does not
//! compile counts as one that matches nothing.

use crate::text::is_char_range;
use regex::Regex;
use vstd::prelude::*;

verus! {

/// The byte range `(start, end)` of the leftmost match of `pattern` in
/// `haystack`, as `Regex::find` gives it for the compiled pattern; `None`
/// when there is no match or when `pattern` does not compile.
pub uninterp spec fn regex_find(pattern: Seq<char>, haystack: Seq<char>) -> Option<(usize, usize)>;

/// The text that `Regex::replace_all` gives when every non-overlapping match
/// of `pattern` in `haystack` is replaced by `replacement`; `haystack` itself
/// when `pattern` does not compile.
pub uninterp spec fn regex_replace_all(pattern: Seq<char>, haystack: Seq<char>, replacement: Seq<char>) -> Seq<char>;

/// Calls `Regex::new` and then `Regex::find`.
///
/// Trusted: the result is the named search result. A match that is found
/// has `start <= end` and lies between two character boundaries of the
/// haystack: `Match::start` and `Match::end` are documented to give offsets
/// at which the haystack can always be sliced.
#[verifier::external_body]
pub(crate) fn find_first(pattern: &str, haystack: &str) -> (found: Option<(usize, usize)>)
    ensures
        found == regex_find(pattern@, haystack@),
        found matches Some((start, end)) ==> is_char_range(haystack@, start, end),
{
    match Regex::new(pattern) {
        Ok(re) => re.find(haystack).map(|m| (m.start(), m.end())),
        Err(_) => None,
    }
}

/// Calls `Regex::new` and then `Regex::is_match`.
///
/// Trusted: the result is true exactly when `Regex::find` finds a match for
/// the same pattern in the same haystack. `Regex::is_match` is documented as
/// the faster way to ask for `Regex::find(..).is_some()`.
#[verifier::external_body]
pub(crate) fn has_match(pattern: &str, haystack: &str) -> (matched: bool)
    ensures
        matched == regex_find(pattern@, haystack@).is_some(),
{
    match Regex::new(pattern) {
        Ok(re) => re.is_match(haystack),
        Err(_) => false,
    }
}

/// Calls `Regex::new` and then `Regex::replace_all`.
///
/// Trusted: the result is the named replacement result, and it is the
/// haystack unchanged when `Regex::find` finds no match in it, as
/// `Regex::replace_all` is documented to leave a haystack without a match.
#[verifier::external_body]
pub(crate) fn replace_every(pattern: &str, haystack: &str, replacement: &str) -> (replaced: String)
    ensures
        replaced@ == regex_replace_all(pattern@, haystack@, replacement@),
        regex_find(pattern@, haystack@) is None ==> replaced@ == haystack@,
{
    match Regex::new(pattern) {
        Ok(re) => re.replace_all(haystack, replacement).into_owned(),
        Err(_) => haystack.to_owned(),
    }
}

} // verus!
