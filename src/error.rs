//! The errors that the workflows report.
use vstd::prelude::*;

verus! {

/// Where a storage failure happened.
#[derive(Clone, Copy, Debug, PartialEq, Eq, Structural)]
pub enum StorageSite {
    Begin,
    Create,
    GroupLookup,
    Fetch,
    Search,
    Delete,
    Notify,
    PeerCounts,
    Commit,
}

/// The single terminal error of a failed request.
#[derive(Clone, Copy, Debug, PartialEq, Eq, Structural)]
pub enum TorrentError {
    /// A malformed upload, or a stored descriptor that does not decode.
    InvalidMetainfo,
    /// The referenced record does not exist.
    RecordNotFound,
    /// The storage collaborator failed at the given site.
    StorageFailure(StorageSite),
    /// A ledger row referenced a user or record that does not exist.
    InvalidIdentifierOrRecord,
}

} // verus!
