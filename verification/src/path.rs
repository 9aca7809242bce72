//! Paths of the file system, carried through unread.

use vstd::prelude::*;

verus! {

/// `std::path::PathBuf`, held as an opaque value.
#[verifier::external_type_specification]
#[verifier::external_body]
pub struct ExPathBuf(std::path::PathBuf);

/// `std::path::Path`, held as an opaque value.
#[verifier::external_type_specification]
#[verifier::external_body]
pub struct ExPath(std::path::Path);

/// The owned path that `std::path::Path::to_path_buf` makes of a path.
pub uninterp spec fn owned_path(path: &std::path::Path) -> std::path::PathBuf;

/// Whether `==` holds between two paths, that is what `PartialEq::eq` of
/// `std::path::PathBuf` returns for them.
pub uninterp spec fn same_path(a: std::path::PathBuf, b: std::path::PathBuf) -> bool;

/// `Clone::clone` of `std::path::PathBuf` returns a duplicate of the path.
pub assume_specification[ <std::path::PathBuf as Clone>::clone ](
    path: &std::path::PathBuf,
) -> (copy: std::path::PathBuf)
    ensures
        copy == *path,
;

/// `std::path::PathBuf::as_path` lends the path as it is: made owned again,
/// it is the path that lent it.
pub assume_specification[ std::path::PathBuf::as_path ](path: &std::path::PathBuf) -> (lent:
    &std::path::Path)
    ensures
        owned_path(lent) == *path,
;

/// Compares two paths by `PartialEq::eq` of `std::path::PathBuf`. A path is
/// equal to itself.
#[verifier::external_body]
pub(crate) fn paths_equal(a: &std::path::PathBuf, b: &std::path::PathBuf) -> (r: bool)
    ensures
        r == same_path(*a, *b),
        *a == *b ==> r,
{
    a.eq(b)
}

} // verus!
