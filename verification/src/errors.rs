//! The closed set of failure kinds that abort one tick's snapshot attempt:
//! store errors and filesystem errors, both opaque to the core.

use vstd::prelude::*;

verus! {

/// Relied-on outside type: `git2::Error`, the store-level error.
#[verifier::external_type_specification]
#[verifier::external_body]
pub struct ExGit2Error(git2::Error);

/// Relied-on outside type: `std::io::Error`, the filesystem-level error.
#[verifier::external_type_specification]
#[verifier::external_body]
pub struct ExIoError(std::io::Error);

/// A failure of one snapshot attempt: either the object store failed or a
/// filesystem operation did. Both abort the attempt as a unit; no partial
/// tree or commit is ever written on failure.
#[derive(Debug)]
pub enum WatchError {
    GitError(git2::Error),
    IOError(std::io::Error),
}

impl vstd::std_specs::convert::FromSpecImpl<git2::Error> for WatchError {
    open spec fn obeys_from_spec() -> bool {
        true
    }

    open spec fn from_spec(t: git2::Error) -> WatchError {
        WatchError::GitError(t)
    }
}

impl From<git2::Error> for WatchError {
    fn from(error: git2::Error) -> (r: Self) {
        WatchError::GitError(error)
    }
}

impl vstd::std_specs::convert::FromSpecImpl<std::io::Error> for WatchError {
    open spec fn obeys_from_spec() -> bool {
        true
    }

    open spec fn from_spec(t: std::io::Error) -> WatchError {
        WatchError::IOError(t)
    }
}

impl From<std::io::Error> for WatchError {
    fn from(error: std::io::Error) -> (r: Self) {
        WatchError::IOError(error)
    }
}

/// Relies on `std::io::Error::new`: builds the filesystem-kind error used
/// when a live file's metadata does not fit the index entry's field widths.
#[verifier::external_body]
pub fn invalid_data_error(msg: &str) -> (r: std::io::Error)
{
    std::io::Error::new(std::io::ErrorKind::InvalidData, msg.to_string())
}

} // verus!
