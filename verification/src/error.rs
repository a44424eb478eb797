//! The error taxonomy of a mirroring run.
use vstd::prelude::*;

verus! {

/// What can go wrong during a run.
///
/// `InvalidConfiguration` covers a malformed base URL or an unparseable
/// repository identifier and is reported before any download starts.
/// `AuthorityCheckFailed` means an endpoint or proxy health probe did not
/// return a success status. `TransferError` is a network failure while
/// fetching headers or streaming a body; it fails the one task it hits.
/// A non-success HTTP status for a single asset is not an error at all:
/// that asset is skipped and the task still counts as a success.
#[derive(Clone, Copy, Debug, PartialEq, Eq, Structural)]
pub enum MirrorError {
    InvalidConfiguration,
    AuthorityCheckFailed,
    TransferError,
}

impl MirrorError {
    /// A short description of the error, for reporting at the edge.
    pub fn message(&self) -> (r: &'static str)
        ensures
            *self is InvalidConfiguration ==> r@ == "invalid configuration"@,
            *self is AuthorityCheckFailed ==> r@ == "authority check failed"@,
            *self is TransferError ==> r@ == "transfer error"@,
    {
        match self {
            MirrorError::InvalidConfiguration => "invalid configuration",
            MirrorError::AuthorityCheckFailed => "authority check failed",
            MirrorError::TransferError => "transfer error",
        }
    }
}

} // verus!
