//! The host's well-known directories. What they are depends on the
//! machine and the environment, so nothing is promised of the answers;
//! the logic that builds paths from them is verified for every answer.

use vstd::prelude::*;

verus! {

/// Relies on dirs::home_dir: the user's home directory, when the
/// platform reports one as UTF-8 text.
#[verifier::external_body]
pub fn home_dir_string() -> (r: Option<String>) {
    dirs::home_dir().and_then(|p| p.to_str().map(|s| s.to_string()))
}

/// Relies on dirs::data_local_dir: the user's local data directory,
/// when the platform reports one as UTF-8 text.
#[verifier::external_body]
pub fn data_local_dir_string() -> (r: Option<String>) {
    dirs::data_local_dir().and_then(|p| p.to_str().map(|s| s.to_string()))
}

} // verus!
