//! The few operations on filesystem paths that the engine needs. A path is
//! carried as the platform represents it; the library never looks inside.

use std::path::{Path, PathBuf};
use vstd::prelude::*;

verus! {

/// Trusted: `std::path::Path`, carried as an opaque value.
#[verifier::external_type_specification]
#[verifier::external_body]
pub struct ExPath(Path);

/// Trusted: `std::path::PathBuf`, carried as an opaque value.
#[verifier::external_type_specification]
#[verifier::external_body]
pub struct ExPathBuf(PathBuf);

/// The owned path that `Path::to_path_buf` makes of a borrowed one.
pub uninterp spec fn owned(path: &Path) -> PathBuf;

/// The path that `Path::join` makes of a directory and a name.
pub uninterp spec fn joined(directory: PathBuf, name: Seq<char>) -> PathBuf;

/// Trusted: `Path::to_path_buf` copies the path, and equal paths give
/// equal copies.
#[verifier::external_body]
pub(crate) fn to_owned_path(path: &Path) -> (copy: PathBuf)
    ensures
        copy == owned(path),
{
    path.to_path_buf()
}

/// Trusted: `Path::join` depends on the directory and the name alone.
#[verifier::external_body]
pub(crate) fn join(directory: &PathBuf, name: &str) -> (path: PathBuf)
    ensures
        path == joined(*directory, name@),
{
    directory.join(name)
}

/// Trusted: cloning a `PathBuf` gives an equal path.
pub assume_specification[ <PathBuf as Clone>::clone ](path: &PathBuf) -> (copy: PathBuf)
    ensures
        copy == *path,
;

} // verus!
