//! The boundary to `std::path`: the last component of a path, and the path
//! without it.
//!
//! How a path splits into components follows the conventions of the platform
//! that the library is built for. The two results are given names; nothing
//! else is claimed of them.

use crate::text::text_view;
use std::path::Path;
use vstd::prelude::*;

verus! {

/// The final component of `path` as `Path::file_name` gives it; `None` for a
/// path that has none, such as the empty path, a root, or one ending in `..`.
pub uninterp spec fn path_file_name(path: Seq<char>) -> Option<Seq<char>>;

/// `path` without its final component as `Path::parent` gives it; `None` for
/// the empty path and for a root.
pub uninterp spec fn path_parent(path: Seq<char>) -> Option<Seq<char>>;

/// The name of the directory that holds the last component of `path`.
pub open spec fn path_directory_name(path: Seq<char>) -> Option<Seq<char>> {
    match path_parent(path) {
        Some(parent) => path_file_name(parent),
        None => None,
    }
}

/// Calls `Path::file_name`.
///
/// Trusted: the result is the named final component of the path.
#[verifier::external_body]
pub(crate) fn file_name<'a>(path: &'a str) -> (name: Option<&'a str>)
    ensures
        text_view(name) == path_file_name(path@),
{
    match Path::new(path).file_name() {
        Some(name) => name.to_str(),
        None => None,
    }
}

/// Calls `Path::parent`.
///
/// Trusted: the result is the named parent of the path.
#[verifier::external_body]
pub(crate) fn parent<'a>(path: &'a str) -> (dir: Option<&'a str>)
    ensures
        text_view(dir) == path_parent(path@),
{
    match Path::new(path).parent() {
        Some(dir) => dir.to_str(),
        None => None,
    }
}

/// The name of the directory that holds the last component of `path`.
pub fn directory_name<'a>(path: &'a str) -> (name: Option<&'a str>)
    ensures
        text_view(name) == path_directory_name(path@),
{
    match parent(path) {
        Some(dir) => file_name(dir),
        None => None,
    }
}

} // verus!
