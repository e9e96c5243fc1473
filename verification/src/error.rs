//! Error values surfaced on the public event sequence.

use vstd::prelude::*;

verus! {

/// Error type for the library's operations.
///
/// Authentication failure is the one terminal outcome the caller must
/// react to by reconstructing the client; everything else carries its
/// description.
#[derive(Debug, PartialEq)]
pub enum Error {
    /// Failed to authenticate with the API
    AuthenticationFailed,
    /// Some other error
    Other(String),
}

} // verus!
