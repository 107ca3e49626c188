//! Filesystem locations. A `PathBuf` is carried through the library as it
//! is; only its rendering as text is ever looked at.

use std::path::PathBuf;
use vstd::prelude::*;

verus! {

/// A path of the filesystem, `std::path::PathBuf`.
#[verifier::external_type_specification]
#[verifier::external_body]
pub struct ExPathBuf(PathBuf);

/// The text of a path, where the path is valid Unicode.
pub uninterp spec fn path_utf8(path: PathBuf) -> Option<Seq<char>>;

/// What an optional string holds.
pub open spec fn text_of(s: Option<String>) -> Option<Seq<char>> {
    match s {
        Some(s) => Some(s@),
        None => None,
    }
}

/// A clone of a path is the same path.
pub assume_specification[ <PathBuf as Clone>::clone ](path: &PathBuf) -> (r: PathBuf)
    ensures
        r == *path,
;

/// Shown in place of a path that is not valid Unicode.
pub const UNPRINTABLE_PATH: &'static str = "Couldn't fetch the X509 path.";

/// The text shown for a path, given the path's own text where it has one.
pub open spec fn path_shown(text: Option<Seq<char>>) -> Seq<char> {
    match text {
        Some(text) => text,
        None => UNPRINTABLE_PATH@,
    }
}

/// The text shown for a path.
pub open spec fn shown_path(path: PathBuf) -> Seq<char> {
    path_shown(path_utf8(path))
}

/// Picks the text shown for a path: the path's own text where it has one,
/// `UNPRINTABLE_PATH` otherwise.
pub fn shown_text(text: Option<String>) -> (r: String)
    ensures
        r@ == path_shown(text_of(text)),
{
    match text {
        Some(text) => text,
        None => UNPRINTABLE_PATH.to_string(),
    }
}

/// Renders a path as the text shown for it.
pub fn show_path(path: &PathBuf) -> (r: String)
    ensures
        r@ == shown_path(*path),
{
    shown_text(path_text(path))
}

/// What a list of strings holds.
pub open spec fn texts(lines: Seq<String>) -> Seq<Seq<char>> {
    lines.map_values(|line: String| line@)
}

/// Calls `Path::to_str`, which yields the path's text exactly when the path
/// is valid Unicode; the text is a function of the path alone.
#[verifier::external_body]
pub(crate) fn path_text(path: &PathBuf) -> (r: Option<String>)
    ensures
        text_of(r) == path_utf8(*path),
{
    match path.to_str() {
        Some(s) => Some(String::from(s)),
        None => None,
    }
}

} // verus!
