//! The result of a classification and the ways it can fail.

use vstd::prelude::*;
use vstd::string::StringExecFns;

verus! {

/// What kind of media a file holds. A television episode carries the number
/// of its season.
#[derive(Debug, Clone, Copy, PartialEq, Eq, Structural)]
pub enum MediaType {
    Television(u32),
    Movie,
}

/// Why a path could not be classified.
#[derive(Debug, Clone, Copy, PartialEq, Eq, Structural)]
pub enum ParseError {
    /// The path has no final component.
    NoFileName,
    /// The file name does not end in a media extension.
    NotMedia,
    /// The parent of the path has no final component.
    NoDirectoryName,
    /// Neither the directory name nor the file name holds a marker that ends
    /// the title.
    NoTitleBoundary,
    /// The file name marks a television episode but holds no season token
    /// that can be read as a number.
    SeasonNumberMissing,
    /// The file name marks no television episode and holds no release year.
    MovieYearMissing,
}

/// A classified media file: its display title, the path it was found under,
/// and its kind.
#[derive(Debug)]
pub struct Media<'a> {
    title: String,
    path: &'a str,
    media_type: MediaType,
}

/// The mathematical content of a [`Media`].
pub struct MediaView {
    pub title: Seq<char>,
    pub path: Seq<char>,
    pub media_type: MediaType,
}

/// A movie's display title: the title, a space, and the year in parentheses.
pub open spec fn title_with_year(title: Seq<char>, year: Seq<char>) -> Seq<char> {
    title + seq![' ', '('] + year + seq![')']
}

impl<'a> View for Media<'a> {
    type V = MediaView;

    closed spec fn view(&self) -> MediaView {
        MediaView { title: self.title@, path: self.path@, media_type: self.media_type }
    }
}

impl<'a> Media<'a> {
    /// An episode of the given season.
    pub(crate) fn television(path: &'a str, title: String, season: u32) -> (media: Media<'a>)
        ensures
            media@ == (MediaView {
                title: title@,
                path: path@,
                media_type: MediaType::Television(season),
            }),
    {
        Media { title, path, media_type: MediaType::Television(season) }
    }

    /// A movie released in the given year, which becomes part of the title.
    pub(crate) fn movie(path: &'a str, title: String, year: &str) -> (media: Media<'a>)
        ensures
            media@ == (MediaView {
                title: title_with_year(title@, year@),
                path: path@,
                media_type: MediaType::Movie,
            }),
    {
        let mut title = title;
        title.append(" (");
        title.append(year);
        title.append(")");
        proof {
            reveal_strlit(" (");
            reveal_strlit(")");
            assert(" ("@ =~= seq![' ', '(']);
            assert(")"@ =~= seq![')']);
        }
        Media { title, path, media_type: MediaType::Movie }
    }

    /// The display title.
    pub fn title(&self) -> (title: &str)
        ensures
            title@ == self@.title,
    {
        self.title.as_str()
    }

    /// The path that was classified.
    pub fn path(&self) -> (path: &'a str)
        ensures
            path@ == self@.path,
    {
        self.path
    }

    /// The kind of media, with the season number of an episode.
    pub fn media_type(&self) -> (media_type: MediaType)
        ensures
            media_type == self@.media_type,
    {
        self.media_type
    }
}

} // verus!
