//! The pattern tables: regular expressions that recognise media files,
//! television markers and the place where a title ends.

use vstd::prelude::*;

verus! {

/// File name endings of media files.
pub const MEDIA_EXTENSIONS: [&'static str; 2] = ["(?i)\\.mp4$", "(?i)\\.mkv$"];

/// Markers of a television episode or series.
pub const TELEVISION_PATTERNS: [&'static str; 4] = [
    "(?i)series",
    "(?i)complete",
    "(?i)(s|e)\\d{1,3}",
    "(?i)season",
];

/// Markers after which a name holds release data and no longer the title:
/// a release year, and then the television markers in their order.
pub const TITLE_END_PATTERNS: [&'static str; 5] = [
    "(19|20)\\d{2}",
    "(?i)series",
    "(?i)complete",
    "(?i)(s|e)\\d{1,3}",
    "(?i)season",
];

/// A season token: the letter `s` followed by one to three digits.
pub const SEASON_TOKEN: &'static str = "(?i)s\\d{1,3}";

/// A release year of the twentieth or twenty-first century.
pub const RELEASE_YEAR: &'static str = "(19|20)\\d{2}";

/// The punctuation that separates the words of a release name.
pub const PUNCTUATION: &'static str = "(\\.|\\(|\\))";

/// Every television marker also ends a title: the television table is the
/// title-end table without its first entry.
pub proof fn television_patterns_end_titles(i: int)
    requires
        0 <= i < TELEVISION_PATTERNS.len(),
    ensures
        TELEVISION_PATTERNS[i]@ == TITLE_END_PATTERNS[i + 1]@,
{
}

} // verus!
