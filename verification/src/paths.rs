//! File system paths, as far as this crate computes with them.
//!
//! A path is opaque to the verifier. What `std::path` computes from paths
//! is named here, and each function is taken to return what its name says;
//! nothing else is assumed about paths.

use std::path::PathBuf;
use vstd::prelude::*;

verus! {

/// `std::path::PathBuf`, carried through verified code as an opaque value.
#[verifier::external_type_specification]
#[verifier::external_body]
pub struct ExPathBuf(PathBuf);

/// The path without its final component, as `Path::parent` gives it; `None`
/// for a root and for the empty path.
pub uninterp spec fn path_parent(path: PathBuf) -> Option<PathBuf>;

/// The path `base` extended by `part`, as `Path::join` gives it.
pub uninterp spec fn path_joined(base: PathBuf, part: Seq<char>) -> PathBuf;

/// The path that the text stands for, as `PathBuf::from` gives it.
pub uninterp spec fn path_of(text: Seq<char>) -> PathBuf;

/// The path relative to `base`, as `Path::strip_prefix` gives it; `None`
/// where `base` is no prefix of the path.
pub uninterp spec fn path_relative(path: PathBuf, base: PathBuf) -> Option<PathBuf>;

/// The path as text, as `Path::display` shows it.
pub uninterp spec fn path_text(path: PathBuf) -> Seq<char>;

/// The final component of the path as text, as `Path::file_name` gives it;
/// `None` where the path ends in `..` or the name is not valid Unicode.
pub uninterp spec fn path_file_name(path: PathBuf) -> Option<Seq<char>>;

/// `Path::parent`, with the result as an owned path.
#[verifier::external_body]
pub(crate) fn parent_of(path: &PathBuf) -> (r: Option<PathBuf>)
    ensures
        r == path_parent(*path),
{
    path.parent().map(PathBuf::from)
}

/// `Path::join` with a text.
#[verifier::external_body]
pub(crate) fn join(base: &PathBuf, part: &str) -> (r: PathBuf)
    ensures
        r == path_joined(*base, part@),
{
    base.join(part)
}

/// `PathBuf::from` a text.
#[verifier::external_body]
pub(crate) fn path_from(text: &str) -> (r: PathBuf)
    ensures
        r == path_of(text@),
{
    PathBuf::from(text)
}

/// `Path::strip_prefix`, with the result as an owned path and the error
/// dropped.
#[verifier::external_body]
pub(crate) fn relative_to(path: &PathBuf, base: &PathBuf) -> (r: Option<PathBuf>)
    ensures
        r == path_relative(*path, *base),
{
    path.strip_prefix(base).ok().map(PathBuf::from)
}

/// `Path::display`, written out.
#[verifier::external_body]
pub(crate) fn display_text(path: &PathBuf) -> (r: String)
    ensures
        r@ == path_text(*path),
{
    path.display().to_string()
}

/// `Path::file_name`, as text where it is valid Unicode.
#[verifier::external_body]
pub(crate) fn file_name_text(path: &PathBuf) -> (r: Option<String>)
    ensures
        match r {
            Some(name) => path_file_name(*path) == Some(name@),
            None => path_file_name(*path) is None,
        },
{
    path.file_name().and_then(|name| name.to_str()).map(|name| name.to_string())
}

} // verus!
