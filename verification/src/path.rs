//! File names of paths, from `std::path`.
use vstd::prelude::*;
use std::path::{Path, PathBuf};
use crate::text::opt_text;

verus! {

/// The last component of the path that `path` spells, where it has one that
/// names a file or a directory, by the rules for paths of the platform that
/// the library is built for.
pub uninterp spec fn file_name_of(path: Seq<char>) -> Option<Seq<char>>;

/// The path that `path` spells with `name` in the place of its last
/// component, or after it where `path` has no such component, by the same
/// rules.
pub uninterp spec fn with_file_name(path: Seq<char>, name: Seq<char>) -> Seq<char>;

/// Reads `path` as a `std::path::Path` and calls `Path::file_name`; the name
/// comes back as an owned string.
///
/// Trusted, not proved: the name is the one that `file_name_of` names.
#[verifier::external_body]
pub(crate) fn file_name(path: &str) -> (name: Option<String>)
    ensures
        opt_text(name) == file_name_of(path@),
{
    Path::new(path).file_name().and_then(|name| name.to_str()).map(|name| name.to_string())
}

/// Copies `path` into a `std::path::PathBuf` and calls
/// `PathBuf::set_file_name` with `name`; the new path comes back as an owned
/// string.
///
/// Trusted, not proved: the new path is the one that `with_file_name` names.
#[verifier::external_body]
pub(crate) fn set_file_name(path: &str, name: &str) -> (renamed: String)
    ensures
        renamed@ == with_file_name(path@, name@),
{
    let mut renamed = PathBuf::from(path);
    renamed.set_file_name(name);
    renamed.to_string_lossy().into_owned()
}

} // verus!
