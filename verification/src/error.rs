//! The error taxonomy of the cache.
//!
//! Repository-level failures are fatal to startup and carry the underlying
//! store error; a malformed request path is a per-request failure handled by
//! the serving layer.

use vstd::prelude::*;

verus! {

/// Declares `std::io::Error`, the error type of the underlying
/// deduplication store, so that it can be carried as an opaque payload.
#[verifier::external_type_specification]
#[verifier::external_body]
pub struct ExIoError(std::io::Error);

/// What went wrong while preparing or addressing the cache.
#[derive(Debug)]
pub enum Error {
    /// The store rejected one of the settings selections while a fresh
    /// repository's configuration was being built.
    DedupError(std::io::Error),
    /// A fresh repository could not be created at the given location.
    DedupRepoInitFailed(std::io::Error),
    /// The given location could not be attached as a repository: nothing is
    /// stored there, or it holds a corrupt, unreadable or unsupported store.
    /// The resolver propagates the latter unchanged and never initializes
    /// over them.
    DedupOpenFailed(std::io::Error),
    /// A request path began with the owner marker but its owner segment was
    /// malformed.
    MalformedPath,
}

impl Error {
    /// A fixed description of the error variant.
    pub fn message(&self) -> (m: String)
        ensures
            m@ == spec_message(*self),
    {
        match self {
            Error::DedupError(_) => "Deduplication error".to_owned(),
            Error::DedupRepoInitFailed(_) => {
                "Could not initialize the deduplication store".to_owned()
            },
            Error::DedupOpenFailed(_) => {
                "Could not open path as dedup repository".to_owned()
            },
            Error::MalformedPath => "Malformed resource path".to_owned(),
        }
    }
}

/// The description `message` returns for each variant.
pub open spec fn spec_message(e: Error) -> Seq<char> {
    match e {
        Error::DedupError(_) => "Deduplication error"@,
        Error::DedupRepoInitFailed(_) => "Could not initialize the deduplication store"@,
        Error::DedupOpenFailed(_) => "Could not open path as dedup repository"@,
        Error::MalformedPath => "Malformed resource path"@,
    }
}

} // verus!
