//! Classification of a media path: is it a media file, where does its title
//! end, is it an episode or a movie, and which season or year does it name.

use crate::matcher::{find_first, regex_find, regex_replace_all, replace_every};
use crate::media::{title_with_year, Media, MediaType, MediaView, ParseError};
use crate::paths::{directory_name, file_name, path_directory_name, path_file_name};
use crate::patterns::{
    MEDIA_EXTENSIONS, PUNCTUATION, RELEASE_YEAR, SEASON_TOKEN, TELEVISION_PATTERNS,
    TITLE_END_PATTERNS,
};
use crate::search::{any_match, earliest_match, earliest_token, matches_any, pattern_matches};
use crate::text::{
    byte_slice, decimal, is_char_range, parse_decimal, slice, text_view, trim, trimmed,
};
use vstd::prelude::*;
use vstd::slice::slice_subrange;
use vstd::utf8::encode_utf8;

verus! {

/// True when `name` ends in a media extension.
pub open spec fn is_media_name(name: Seq<char>) -> bool {
    matches_any(MEDIA_EXTENSIONS@, name)
}

/// True when `name` holds a television marker.
pub open spec fn is_television_name(name: Seq<char>) -> bool {
    matches_any(TELEVISION_PATTERNS@, name)
}

/// The byte offset in `name` at which the title ends: where the first
/// marker of any kind begins.
pub open spec fn title_end(name: Seq<char>) -> Option<usize> {
    earliest_match(TITLE_END_PATTERNS@, name)
}

/// The season that the token in the bytes `start..end` of `name` names:
/// what follows the token's first byte, read as a decimal number. A token
/// whose remainder is no run of ASCII digits names no season.
pub open spec fn token_season(name: Seq<char>, start: usize, end: usize) -> Option<u32> {
    if start < end <= encode_utf8(name).len() {
        decimal(encode_utf8(name).subrange(start + 1, end as int))
    } else {
        None
    }
}

/// The season that the first season token of `name` names.
pub open spec fn season_number(name: Seq<char>) -> Option<u32> {
    match regex_find(SEASON_TOKEN@, name) {
        Some((start, end)) => token_season(name, start, end),
        None => None,
    }
}

/// The first release year in `name`, as it is written there.
pub open spec fn movie_year(name: Seq<char>) -> Option<Seq<char>> {
    match regex_find(RELEASE_YEAR@, name) {
        Some((start, end)) => Some(byte_slice(name, start as int, end as int)),
        None => None,
    }
}

/// `text` with every match of the punctuation pattern replaced by a space;
/// `text` itself where the pattern finds nothing.
pub open spec fn spaced(text: Seq<char>) -> Seq<char> {
    if pattern_matches(PUNCTUATION@, text) {
        regex_replace_all(PUNCTUATION@, text, " "@)
    } else {
        text
    }
}

/// `text` with its punctuation replaced by spaces and without whitespace at
/// its ends.
pub open spec fn cleaned(text: Seq<char>) -> Seq<char> {
    trimmed(spaced(text))
}

/// The title as the names hold it, before cleaning: the directory name up to
/// the place where its title ends, or else the file name up to that place.
pub open spec fn raw_title(file_name: Seq<char>, directory: Seq<char>) -> Option<Seq<char>> {
    match title_end(directory) {
        Some(end) => Some(byte_slice(directory, 0, end as int)),
        None => match title_end(file_name) {
            Some(end) => Some(byte_slice(file_name, 0, end as int)),
            None => None,
        },
    }
}

/// What a cleaned title and the findings in a file name make: an episode
/// with its season, a movie with its year in the title, or the error that
/// says which of the two is missing.
pub open spec fn assembled(
    path: Seq<char>,
    title: Seq<char>,
    television: bool,
    season: Option<u32>,
    year: Option<Seq<char>>,
) -> Result<MediaView, ParseError> {
    if television {
        match season {
            Some(number) => Ok(
                MediaView { title, path, media_type: MediaType::Television(number) },
            ),
            None => Err(ParseError::SeasonNumberMissing),
        }
    } else {
        match year {
            Some(written) => Ok(
                MediaView {
                    title: title_with_year(title, written),
                    path,
                    media_type: MediaType::Movie,
                },
            ),
            None => Err(ParseError::MovieYearMissing),
        }
    }
}

/// The classification of a path whose file name and directory name are given.
pub open spec fn classified(
    path: Seq<char>,
    file_name: Option<Seq<char>>,
    directory: Option<Seq<char>>,
) -> Result<MediaView, ParseError> {
    if file_name is None {
        Err(ParseError::NoFileName)
    } else if !is_media_name(file_name.unwrap()) {
        Err(ParseError::NotMedia)
    } else if directory is None {
        Err(ParseError::NoDirectoryName)
    } else if raw_title(file_name.unwrap(), directory.unwrap()) is None {
        Err(ParseError::NoTitleBoundary)
    } else {
        let name = file_name.unwrap();
        assembled(
            path,
            cleaned(raw_title(name, directory.unwrap()).unwrap()),
            is_television_name(name),
            season_number(name),
            movie_year(name),
        )
    }
}

/// The classification of a path.
pub open spec fn parsed(path: Seq<char>) -> Result<MediaView, ParseError> {
    classified(path, path_file_name(path), path_directory_name(path))
}

/// What a result of [`parse`] says: the view of the media, or the error.
pub open spec fn outcome(result: Result<Media<'_>, ParseError>) -> Result<MediaView, ParseError> {
    match result {
        Ok(media) => Ok(media@),
        Err(error) => Err(error),
    }
}

/// Tells whether the path or file name ends in a media extension.
pub fn is_media(path: &str) -> (media: bool)
    ensures
        media == is_media_name(path@),
{
    any_match(MEDIA_EXTENSIONS.as_slice(), path)
}

/// Tells whether the file name holds a television marker.
pub fn is_television(file: &str) -> (television: bool)
    ensures
        television == is_television_name(file@),
{
    any_match(TELEVISION_PATTERNS.as_slice(), file)
}

/// The byte offset at which the title ends in `file`: the smallest offset at
/// which a title-end marker of any kind begins.
pub fn get_title_end_pos(file: &str) -> (end: Option<usize>)
    ensures
        end == title_end(file@),
        end matches Some(offset) ==> is_char_range(file@, 0, offset),
{
    earliest_token(TITLE_END_PATTERNS.as_slice(), file)
}

/// The season that the token in the bytes `start..end` of `file` names: the
/// number that the digits after the token's first byte write.
pub fn read_season(file: &str, start: usize, end: usize) -> (season: Option<u32>)
    ensures
        season == token_season(file@, start, end),
{
    let bytes = file.as_bytes();
    if start < end && end <= bytes.len() {
        parse_decimal(slice_subrange(bytes, start + 1, end))
    } else {
        None
    }
}

/// The season number that the first season token of `file` names; `None`
/// where `file` holds no such token, or one that no number can be read from.
pub fn get_season_number(file: &str) -> (season: Option<u32>)
    ensures
        season == season_number(file@),
{
    match find_first(SEASON_TOKEN, file) {
        Some((start, end)) => read_season(file, start, end),
        None => None,
    }
}

/// The first release year in `file`, as it is written there.
pub fn get_movie_year(file: &str) -> (year: Option<&str>)
    ensures
        text_view(year) == movie_year(file@),
{
    match find_first(RELEASE_YEAR, file) {
        Some((start, end)) => slice(file, start, end),
        None => None,
    }
}

/// Replaces `.`, `(` and `)` by spaces and removes the whitespace at both
/// ends.
pub fn clean_file_name(file: &str) -> (title: String)
    ensures
        title@ == cleaned(file@),
{
    let spaced = replace_every(PUNCTUATION, file, " ");
    trim(spaced.as_str()).to_owned()
}

/// Makes the result from a cleaned title and the findings in the file name.
/// A television file needs its season and a movie its year; the finding
/// that the kind does not need is not looked at.
pub fn assemble<'a>(
    path: &'a str,
    title: String,
    television: bool,
    season: Option<u32>,
    year: Option<&str>,
) -> (result: Result<Media<'a>, ParseError>)
    ensures
        outcome(result) == assembled(path@, title@, television, season, text_view(year)),
{
    if television {
        match season {
            Some(number) => Ok(Media::television(path, title, number)),
            None => Err(ParseError::SeasonNumberMissing),
        }
    } else {
        match year {
            Some(written) => Ok(Media::movie(path, title, written)),
            None => Err(ParseError::MovieYearMissing),
        }
    }
}

/// Classifies `path`, given its file name and the name of its directory.
pub fn parse_components<'a>(
    path: &'a str,
    file_name: Option<&str>,
    directory: Option<&str>,
) -> (result: Result<Media<'a>, ParseError>)
    ensures
        outcome(result) == classified(path@, text_view(file_name), text_view(directory)),
{
    let Some(file_name) = file_name else {
        return Err(ParseError::NoFileName);
    };
    if !is_media(file_name) {
        return Err(ParseError::NotMedia);
    }
    let Some(directory) = directory else {
        return Err(ParseError::NoDirectoryName);
    };
    let raw = match get_title_end_pos(directory) {
        Some(end) => slice(directory, 0, end),
        None => match get_title_end_pos(file_name) {
            Some(end) => slice(file_name, 0, end),
            None => None,
        },
    };
    let Some(raw) = raw else {
        return Err(ParseError::NoTitleBoundary);
    };
    let title = clean_file_name(raw);
    if is_television(file_name) {
        assemble(path, title, true, get_season_number(file_name), None)
    } else {
        assemble(path, title, false, None, get_movie_year(file_name))
    }
}

/// Classifies the media file at `path` as an episode or a movie.
pub fn parse<'a>(path: &'a str) -> (result: Result<Media<'a>, ParseError>)
    ensures
        outcome(result) == parsed(path@),
{
    parse_components(path, file_name(path), directory_name(path))
}

} // verus!

