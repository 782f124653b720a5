//! File paths, as the text that spells them.
//!
//! The library takes and gives paths as strings. What the parts of a path
//! are is left to `std::path`, as it reads paths on the platform that the
//! library is built for: each function here makes one call into it, and its
//! contract gives the result a name.

use crate::text::optional_text;
use vstd::prelude::*;

verus! {

/// What `std::path::Path::extension` returns for a path: the part of its file
/// name after the last dot, if the file name has one that is not its first
/// character.
pub uninterp spec fn extension_of(path: Seq<char>) -> Option<Seq<char>>;

/// What `std::path::Path::parent` returns for a path: the path without its
/// last component, if it has one.
pub uninterp spec fn parent_of(path: Seq<char>) -> Option<Seq<char>>;

/// What `std::path::Path::file_stem` returns for a path: its file name
/// without the extension, if it has a file name.
pub uninterp spec fn file_stem_of(path: Seq<char>) -> Option<Seq<char>>;

/// What `std::path::Path::join` returns: `base` extended by `child`, or
/// `child` alone where `child` is absolute.
pub uninterp spec fn joined_path(base: Seq<char>, child: Seq<char>) -> Seq<char>;

/// Calls `std::path::Path::extension` on the path that `path` spells. The
/// contract only gives the result its name.
#[verifier::external_body]
pub(crate) fn path_extension(path: &str) -> (r: Option<String>)
    ensures
        optional_text(r) == extension_of(path@),
{
    match std::path::Path::new(path).extension() {
        Some(e) => Some(e.to_string_lossy().into_owned()),
        None => None,
    }
}

/// Calls `std::path::Path::parent` on the path that `path` spells. The
/// contract only gives the result its name.
#[verifier::external_body]
pub(crate) fn path_parent(path: &str) -> (r: Option<String>)
    ensures
        optional_text(r) == parent_of(path@),
{
    match std::path::Path::new(path).parent() {
        Some(p) => Some(p.to_string_lossy().into_owned()),
        None => None,
    }
}

/// Calls `std::path::Path::file_stem` on the path that `path` spells. The
/// contract only gives the result its name.
#[verifier::external_body]
pub(crate) fn path_file_stem(path: &str) -> (r: Option<String>)
    ensures
        optional_text(r) == file_stem_of(path@),
{
    match std::path::Path::new(path).file_stem() {
        Some(s) => Some(s.to_string_lossy().into_owned()),
        None => None,
    }
}

/// Calls `std::path::Path::join` on the path that `base` spells. The
/// contract only gives the result its name.
#[verifier::external_body]
pub(crate) fn path_join(base: &str, child: &str) -> (r: String)
    ensures
        r@ == joined_path(base@, child@),
{
    std::path::Path::new(base).join(child).to_string_lossy().into_owned()
}

/// The directory that holds `path`, or `.` where the path names none.
pub open spec fn directory_of(path: Seq<char>) -> Seq<char> {
    match parent_of(path) {
        Some(p) => p,
        None => "."@,
    }
}

/// The directory that holds `path`, or `.` where the path names none.
pub fn parent_or_current(path: &str) -> (r: String)
    ensures
        r@ == directory_of(path@),
{
    match path_parent(path) {
        Some(p) => p,
        None => "."
            .to_owned(),
    }
}

} // verus!
