use vstd::prelude::*;

verus! {

/// The closed error taxonomy surfaced to callers of the link store.
///
/// `NotFound` is returned only by key resolution, when no usable record
/// exists for the key. `ServerError` collapses every failure of the backing
/// store call itself (transport, throttling, malformed response) into one
/// opaque kind, so no backend detail leaks to the caller.
#[derive(Clone, Copy, Debug, PartialEq, Eq, Structural)]
pub enum Error {
    NotFound,
    ServerError,
}

impl Error {
    /// A short human-readable description of the error.
    pub fn message(&self) -> (m: &'static str)
        ensures
            *self is NotFound ==> m@ == "No link found for key"@,
            *self is ServerError ==> m@ == "Internal server error"@,
    {
        match self {
            Error::NotFound => "No link found for key",
            Error::ServerError => "Internal server error",
        }
    }
}

} // verus!
