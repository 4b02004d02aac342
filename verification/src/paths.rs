//! Filesystem values that the scanner carries but never inspects.

use vstd::prelude::*;
use std::path::PathBuf;

verus! {

/// A filesystem path. The scanner stores paths and hands them back; it never
/// looks inside one.
#[verifier::external_type_specification]
#[verifier::external_body]
pub struct ExPathBuf(std::path::PathBuf);

/// The cause of a failed filesystem operation, kept for the final report.
#[verifier::external_type_specification]
#[verifier::external_body]
pub struct ExIoError(std::io::Error);

/// `PathBuf::clone`: the copy is the same path as the one copied.
#[verifier::external_body]
pub(crate) fn duplicate_path(path: &PathBuf) -> (copy: PathBuf)
    ensures
        copy == *path,
{
    path.clone()
}

} // verus!
