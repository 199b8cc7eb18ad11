//! Directories and files, as `std::path` has them.

use std::path::PathBuf;
use vstd::prelude::*;

verus! {

/// `std::path::PathBuf`, carried through as an opaque value.
#[verifier::external_type_specification]
#[verifier::external_body]
pub struct ExPathBuf(PathBuf);

/// The path that `Path::join` makes of a base path and one more component,
/// on the platform the crate is built for.
pub uninterp spec fn joined_path(base: PathBuf, part: Seq<char>) -> PathBuf;

/// `Path::join`, called on the base path with the component as its argument.
/// Nothing is said of the result but that it is the path named by
/// [`joined_path`] for these two values.
#[verifier::external_body]
pub(crate) fn join_path(base: &PathBuf, part: &str) -> (path: PathBuf)
    ensures
        path == joined_path(*base, part@),
{
    base.join(part)
}

/// `PathBuf::clone` returns a path equal to the one it was called on.
pub assume_specification[ <PathBuf as Clone>::clone ](path: &PathBuf) -> (copy: PathBuf)
    ensures
        copy == *path,
;

} // verus!
