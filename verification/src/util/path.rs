//! File-system paths as values that the library carries and joins.

use vstd::prelude::*;
use std::path::PathBuf;

verus! {

#[verifier::external_type_specification]
#[verifier::external_body]
pub struct ExPathBuf(PathBuf);

/// The path `std::path::Path::join` builds from a base path and a relative
/// component.
pub uninterp spec fn spec_path_join(base: PathBuf, component: Seq<char>) -> PathBuf;

/// Calls `std::path::Path::join`. The contract claims only that the result
/// is a function of the base path and the component's characters; how the
/// two are combined is left unsaid.
#[verifier::external_body]
pub(crate) fn path_join(base: &PathBuf, component: &str) -> (joined: PathBuf)
    ensures
        joined == spec_path_join(*base, component@),
{
    base.join(component)
}

/// Calls `<PathBuf as Clone>::clone`, which the standard library documents
/// as returning an equal path.
#[verifier::external_body]
pub(crate) fn path_clone(path: &PathBuf) -> (copy: PathBuf)
    ensures
        copy == *path,
{
    path.clone()
}

} // verus!
