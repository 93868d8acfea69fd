//! Path syntax, which the library leaves to `std::path`.
//!
//! A path is text here: the build tool reports paths as UTF-8. How a path
//! splits into components is decided by `std::path::Path` for the platform the
//! library is compiled for; the verified code only names the results.

use vstd::prelude::*;

verus! {

/// What `std::path::Path::parent` returns for the path with this text: the path
/// without its final component, or `None` if the path ends in a root or is
/// empty.
pub uninterp spec fn parent_of(path: Seq<char>) -> Option<Seq<char>>;

/// What `std::path::Path::is_absolute` returns for the path with this text.
pub uninterp spec fn is_absolute(path: Seq<char>) -> bool;

/// What `std::path::Path::file_stem` returns for the path with this text. The
/// outer `None` says that the path has no file name; the inner one that the
/// stem is not valid Unicode, so that it cannot be written as text.
pub uninterp spec fn file_stem_of(path: Seq<char>) -> Option<Option<Seq<char>>>;

/// What `std::path::Path::with_file_name` returns for the path with the text
/// `path` and the file name `name`.
pub uninterp spec fn sibling_of(path: Seq<char>, name: Seq<char>) -> Seq<char>;

/// Trusted: calls `std::path::Path::parent` and hands the parent back as text.
/// The contract only names the result.
#[verifier::external_body]
pub(crate) fn path_parent(path: &str) -> (parent: Option<String>)
    ensures
        parent.deep_view() == parent_of(path@),
{
    match std::path::Path::new(path).parent() {
        Some(parent) => Some(parent.to_string_lossy().into_owned()),
        None => None,
    }
}

/// Trusted: calls `std::path::Path::is_absolute`. The contract only names the
/// result.
#[verifier::external_body]
pub(crate) fn path_is_absolute(path: &str) -> (absolute: bool)
    ensures
        absolute == is_absolute(path@),
{
    std::path::Path::new(path).is_absolute()
}

/// Trusted: calls `std::path::Path::file_stem` and turns the stem into text
/// with `to_str`, which fails on a stem that is not valid Unicode. The contract
/// only names the result.
#[verifier::external_body]
pub(crate) fn path_file_stem(path: &str) -> (stem: Option<Option<String>>)
    ensures
        stem.deep_view() == file_stem_of(path@),
{
    match std::path::Path::new(path).file_stem() {
        Some(stem) => match stem.to_str() {
            Some(text) => Some(Some(text.to_owned())),
            None => Some(None),
        },
        None => None,
    }
}

/// Trusted: calls `std::path::Path::with_file_name` and hands the new path back
/// as text. The contract only names the result.
#[verifier::external_body]
pub(crate) fn path_with_file_name(path: &str, name: &str) -> (sibling: String)
    ensures
        sibling@ == sibling_of(path@, name@),
{
    std::path::Path::new(path).with_file_name(name).to_string_lossy().into_owned()
}

} // verus!
