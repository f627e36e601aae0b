//! Searching a text with one pattern or with a table of patterns.

use crate::matcher::{find_first, has_match, regex_find};
use crate::text::is_char_range;
use vstd::prelude::*;
use vstd::utf8::encode_utf8_valid_utf8;

verus! {

/// True when `pattern` has a match somewhere in `text`.
pub open spec fn pattern_matches(pattern: Seq<char>, text: Seq<char>) -> bool {
    regex_find(pattern, text).is_some()
}

/// The byte offset at which the leftmost match of `pattern` in `text` begins.
pub open spec fn match_start(pattern: Seq<char>, text: Seq<char>) -> Option<usize> {
    match regex_find(pattern, text) {
        Some((start, _)) => Some(start),
        None => None,
    }
}

/// True when at least one pattern of the table has a match in `text`.
pub open spec fn matches_any(patterns: Seq<&'static str>, text: Seq<char>) -> bool {
    exists|i: int| 0 <= i < patterns.len() && pattern_matches(#[trigger] patterns[i]@, text)
}

/// The smaller of two optional offsets; an absent one does not count.
pub open spec fn earlier_start(a: Option<usize>, b: Option<usize>) -> Option<usize> {
    match (a, b) {
        (Some(x), Some(y)) => Some(if y < x { y } else { x }),
        (Some(x), None) => Some(x),
        (None, _) => b,
    }
}

/// True when `first` is the smallest offset at which a match of any pattern
/// of the table begins in `text`: some pattern's leftmost match begins there,
/// and no pattern's leftmost match begins before it.
pub open spec fn is_earliest_match(
    patterns: Seq<&'static str>,
    text: Seq<char>,
    first: usize,
) -> bool {
    &&& exists|i: int|
        0 <= i < patterns.len() && #[trigger] match_start(patterns[i]@, text) == Some(first)
    &&& forall|i: int|
        0 <= i < patterns.len() ==> (#[trigger] match_start(patterns[i]@, text) matches Some(
            start,
        ) ==> first <= start)
}

/// The smallest offset at which a match of any pattern of the table begins in
/// `text`; `None` when no pattern matches.
pub open spec fn earliest_match(patterns: Seq<&'static str>, text: Seq<char>) -> Option<usize> {
    if exists|first: usize| is_earliest_match(patterns, text, first) {
        Some(choose|first: usize| is_earliest_match(patterns, text, first))
    } else {
        None
    }
}

/// True when `best` is what the table finds in `text`: the smallest offset
/// of a match, or nothing where no pattern matches.
pub open spec fn describes_earliest(
    patterns: Seq<&'static str>,
    text: Seq<char>,
    best: Option<usize>,
) -> bool {
    match best {
        Some(first) => is_earliest_match(patterns, text, first),
        None => !matches_any(patterns, text),
    }
}

/// There is one earliest match at most, so what describes it is it.
pub proof fn lemma_earliest_is_unique(
    patterns: Seq<&'static str>,
    text: Seq<char>,
    best: Option<usize>,
)
    requires
        describes_earliest(patterns, text, best),
    ensures
        best == earliest_match(patterns, text),
{
}

/// One more pattern: the earliest match of a longer table is the earlier of
/// what the table found so far and what its next pattern finds.
pub proof fn lemma_earliest_extends(
    patterns: Seq<&'static str>,
    text: Seq<char>,
    count: int,
    best: Option<usize>,
)
    requires
        0 <= count < patterns.len(),
        describes_earliest(patterns.take(count), text, best),
    ensures
        describes_earliest(
            patterns.take(count + 1),
            text,
            earlier_start(best, match_start(patterns[count]@, text)),
        ),
{
    let before = patterns.take(count);
    let with_next = patterns.take(count + 1);
    match earlier_start(best, match_start(patterns[count]@, text)) {
        Some(first) => {
            if best == Some(first) {
                let i = choose|i: int|
                    0 <= i < before.len() && #[trigger] match_start(before[i]@, text) == Some(
                        first,
                    );
                assert(match_start(with_next[i]@, text) == Some(first));
            } else {
                assert(match_start(with_next[count]@, text) == Some(first));
            }
        },
        None => {},
    }
}

/// Where the leftmost match of `pat` begins in `title`.
pub fn find_token(title: &str, pat: &str) -> (start: Option<usize>)
    ensures
        start == match_start(pat@, title@),
        start matches Some(s) ==> is_char_range(title@, 0, s),
{
    match find_first(pat, title) {
        Some((start, _)) => {
            proof {
                encode_utf8_valid_utf8(title@);
            }
            Some(start)
        },
        None => None,
    }
}

/// The smaller of two optional offsets; an absent one does not count.
pub fn earlier(a: Option<usize>, b: Option<usize>) -> (first: Option<usize>)
    ensures
        first == earlier_start(a, b),
{
    match (a, b) {
        (Some(x), Some(y)) => Some(if y < x { y } else { x }),
        (Some(x), None) => Some(x),
        (None, _) => b,
    }
}

/// Tells whether any pattern of the table has a match in `text`.
pub fn any_match(patterns: &[&'static str], text: &str) -> (found: bool)
    ensures
        found == matches_any(patterns@, text@),
{
    let mut i: usize = 0;
    while i < patterns.len()
        invariant
            0 <= i <= patterns@.len(),
            forall|k: int| 0 <= k < i ==> !pattern_matches(#[trigger] patterns@[k]@, text@),
        decreases patterns@.len() - i,
    {
        if has_match(patterns[i], text) {
            return true;
        }
        i += 1;
    }
    false
}

/// The smallest byte offset at which a match of any pattern of the table
/// begins in `text`. Every pattern is tried, whatever the others found.
pub fn earliest_token(patterns: &[&'static str], text: &str) -> (first: Option<usize>)
    ensures
        first == earliest_match(patterns@, text@),
        first matches Some(offset) ==> is_char_range(text@, 0, offset),
{
    let mut best: Option<usize> = None;
    let mut i: usize = 0;
    while i < patterns.len()
        invariant
            0 <= i <= patterns@.len(),
            describes_earliest(patterns@.take(i as int), text@, best),
            best matches Some(offset) ==> is_char_range(text@, 0, offset),
        decreases patterns@.len() - i,
    {
        let found = find_token(text, patterns[i]);
        proof {
            lemma_earliest_extends(patterns@, text@, i as int, best);
        }
        best = earlier(best, found);
        i += 1;
    }
    proof {
        assert(patterns@.take(i as int) =~= patterns@);
        lemma_earliest_is_unique(patterns@, text@, best);
    }
    best
}

} // verus!
