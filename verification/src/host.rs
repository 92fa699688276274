//! The one question the library itself asks the host filesystem.

use vstd::prelude::*;

verus! {

/// Relies on std::path::Path::is_dir: whether `path` names an existing
/// directory on the host at the moment of the call. The answer depends
/// on the state of the filesystem, and an inaccessible path answers the
/// same as an absent one, so nothing is promised of the result; every
/// caller must be correct for either answer.
#[verifier::external_body]
pub(crate) fn path_is_dir(path: &str) -> bool {
    std::path::Path::new(path).is_dir()
}

} // verus!
