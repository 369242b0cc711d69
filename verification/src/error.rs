//! The error taxonomy of the bridge. Every operation either completes in full
//! or fails with one of these kinds and no state change.

use vstd::prelude::*;

verus! {

/// Why a bridge operation was refused.
///
/// `NotInitialized` and `AlreadyInitialized` are surfaced by the host ledger
/// when it resolves the instance record's address; the record-level operations
/// here never construct them themselves.
#[derive(Clone, Copy, Debug, PartialEq, Eq, Structural)]
pub enum DustBridgingError {
    /// No instance record exists for the collection.
    NotInitialized,
    /// An instance record already exists for the collection.
    AlreadyInitialized,
    /// The caller is neither the update authority nor, where permitted, the delegate.
    Unauthorized,
    /// The instance's kill switch is on; burn-and-relay is refused.
    Paused,
    /// The presented collection-metadata address is not the instance's.
    MetadataMismatch,
    /// The asset URI does not have the shape `.../<segment>.json`.
    MalformedUri,
    /// The segment between the final `/` and `.json` is not a `u16` numeral.
    UnparsableTokenId,
    /// A token id at or beyond the collection size was used against the allow-list.
    TokenIdOutOfBounds,
    /// Allow-listing is enabled and the token id's bit is not set.
    NotYetWhitelisted,
    /// A bulk allow-list update would run past the end of the bitmap.
    BulkRangeOverflow,
}

} // verus!
