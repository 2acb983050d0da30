//! The directory that holds a path.

use vstd::prelude::*;

verus! {

/// Trusted: `std::path::Path::parent`, with the path given and the directory
/// returned as text. What counts as the last component of a path depends on
/// the platform, so nothing is said of the directory that comes back, nor of
/// when there is none.
#[verifier::external_body]
pub(crate) fn parent_dir(path: &str) -> (parent: Option<String>) {
    match std::path::Path::new(path).parent() {
        Some(dir) => Some(dir.to_string_lossy().into_owned()),
        None => None,
    }
}

} // verus!
