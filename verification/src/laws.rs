//! What holds of the classification for every input.

use crate::media::{MediaType, ParseError};
use crate::parser::{
    classified, cleaned, is_media_name, is_television_name, movie_year, parsed, raw_title,
    season_number, spaced, title_end,
};
use crate::search::{
    describes_earliest, earlier_start, earliest_match, is_earliest_match, lemma_earliest_extends,
    lemma_earliest_is_unique, match_start, matches_any, pattern_matches,
};
use crate::paths::{path_directory_name, path_file_name};
use crate::patterns::{
    television_patterns_end_titles, PUNCTUATION, SEASON_TOKEN, TELEVISION_PATTERNS,
    TITLE_END_PATTERNS,
};
use crate::text::{is_whitespace, trimmed_twice, trimmed};
use vstd::prelude::*;

verus! {

/// Every table has an earliest match or none: what it finds in a text is
/// described by exactly one value.
pub proof fn earliest_match_is_minimum(patterns: Seq<&'static str>, text: Seq<char>)
    ensures
        describes_earliest(patterns, text, earliest_match(patterns, text)),
        earliest_match(patterns, text) is None <==> !matches_any(patterns, text),
{
    let best = lemma_earliest_exists(patterns, text, patterns.len() as int);
    assert(patterns.take(patterns.len() as int) =~= patterns);
    lemma_earliest_is_unique(patterns, text, best);
}

/// The first `count` patterns of a table have an earliest match or none.
proof fn lemma_earliest_exists(patterns: Seq<&'static str>, text: Seq<char>, count: int) -> (best:
    Option<usize>)
    requires
        0 <= count <= patterns.len(),
    ensures
        describes_earliest(patterns.take(count), text, best),
    decreases count,
{
    if count == 0 {
        None
    } else {
        let before = lemma_earliest_exists(patterns, text, count - 1);
        lemma_earliest_extends(patterns, text, count - 1, before);
        earlier_start(before, match_start(patterns[count - 1]@, text))
    }
}

/// True when every pattern of `first` is also a pattern of `second`.
pub open spec fn patterns_within(first: Seq<&'static str>, second: Seq<&'static str>) -> bool {
    forall|i: int|
        0 <= i < first.len() ==> exists|j: int|
            0 <= j < second.len() && (#[trigger] second[j])@ == (#[trigger] first[i])@
}

/// The order of a table does not matter, nor how often it holds a pattern:
/// two tables that hold the same patterns give the same earliest match.
pub proof fn earliest_match_ignores_order(
    first: Seq<&'static str>,
    second: Seq<&'static str>,
    text: Seq<char>,
)
    requires
        patterns_within(first, second),
        patterns_within(second, first),
    ensures
        earliest_match(first, text) == earliest_match(second, text),
{
    earliest_match_is_minimum(first, text);
    earliest_match_is_minimum(second, text);
    lemma_bounded_by_superset(first, second, text);
    lemma_bounded_by_superset(second, first, text);
}

/// Where a table matches, a table that holds all its patterns matches no
/// later.
proof fn lemma_bounded_by_superset(
    first: Seq<&'static str>,
    second: Seq<&'static str>,
    text: Seq<char>,
)
    requires
        patterns_within(first, second),
    ensures
        earliest_match(first, text) matches Some(a) ==> (earliest_match(second, text) matches Some(
            b,
        ) && b <= a),
{
    earliest_match_is_minimum(first, text);
    earliest_match_is_minimum(second, text);
}

/// The title of a name ends where its first marker begins: at the smallest
/// offset at which any title-end pattern matches, whichever pattern that is
/// and wherever it stands in the table.
pub proof fn title_end_is_first_marker(name: Seq<char>)
    ensures
        title_end(name) is None <==> !matches_any(TITLE_END_PATTERNS@, name),
        title_end(name) matches Some(end) ==> is_earliest_match(TITLE_END_PATTERNS@, name, end),
{
    earliest_match_is_minimum(TITLE_END_PATTERNS@, name);
}

/// A name that holds a television marker holds a place where its title ends.
pub proof fn television_name_has_title_end(name: Seq<char>)
    requires
        is_television_name(name),
    ensures
        title_end(name) is Some,
{
    let i = choose|i: int|
        0 <= i < TELEVISION_PATTERNS@.len() && pattern_matches(
            #[trigger] TELEVISION_PATTERNS@[i]@,
            name,
        );
    television_patterns_end_titles(i);
    earliest_match_is_minimum(TITLE_END_PATTERNS@, name);
}

/// A text in which the punctuation pattern finds nothing is cleaned by
/// trimming alone. If it has no whitespace at its ends either, cleaning
/// returns it as it is.
pub proof fn clean_keeps_unpunctuated_text(text: Seq<char>)
    requires
        !pattern_matches(PUNCTUATION@, text),
    ensures
        cleaned(text) == trimmed(text),
        text.len() == 0 || (!is_whitespace(text.first()) && !is_whitespace(text.last()))
            ==> cleaned(text) == text,
{
}

/// Cleaning twice gives what cleaning once gives, for a text whose cleaned
/// form holds no punctuation any more.
pub proof fn clean_is_idempotent(text: Seq<char>)
    requires
        !pattern_matches(PUNCTUATION@, cleaned(text)),
    ensures
        cleaned(cleaned(text)) == cleaned(text),
{
    trimmed_twice(spaced(text));
}

/// A media file whose name holds a television marker but no season number
/// that can be read is never classified: with a directory name at hand the
/// outcome is `SeasonNumberMissing`, whatever else the names hold.
pub proof fn television_without_season_fails(
    path: Seq<char>,
    file_name: Seq<char>,
    directory: Seq<char>,
)
    requires
        is_media_name(file_name),
        is_television_name(file_name),
        season_number(file_name) is None,
    ensures
        classified(path, Some(file_name), Some(directory)) == Err::<crate::media::MediaView, _>(
            ParseError::SeasonNumberMissing,
        ),
{
    television_name_has_title_end(file_name);
}

/// A name without a season token has no season number.
pub proof fn no_season_token_no_season_number(name: Seq<char>)
    requires
        !pattern_matches(SEASON_TOKEN@, name),
    ensures
        season_number(name) is None,
{
}

/// An episode is classified only with the season number read from its file
/// name, and a movie only with the release year found there.
pub proof fn success_carries_extracted_data(
    path: Seq<char>,
    file_name: Option<Seq<char>>,
    directory: Option<Seq<char>>,
)
    ensures
        classified(path, file_name, directory) matches Ok(media) ==> ({
            &&& file_name is Some && directory is Some
            &&& is_media_name(file_name.unwrap())
            &&& raw_title(file_name.unwrap(), directory.unwrap()) is Some
            &&& media.path == path
            &&& match media.media_type {
                MediaType::Television(season) => is_television_name(file_name.unwrap())
                    && season_number(file_name.unwrap()) == Some(season),
                MediaType::Movie => !is_television_name(file_name.unwrap()) && movie_year(
                    file_name.unwrap(),
                ) is Some,
            }
        }),
{
}

/// The same for a whole path: a television file without a readable season
/// number fails with `SeasonNumberMissing`.
pub proof fn parse_television_without_season_fails(path: Seq<char>)
    requires
        path_file_name(path) matches Some(name) && is_media_name(name) && is_television_name(name)
            && season_number(name) is None,
        path_directory_name(path) is Some,
    ensures
        parsed(path) == Err::<crate::media::MediaView, _>(ParseError::SeasonNumberMissing),
{
    television_without_season_fails(
        path,
        path_file_name(path).unwrap(),
        path_directory_name(path).unwrap(),
    );
}

} // verus!
