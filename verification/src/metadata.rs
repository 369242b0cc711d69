//! Plain-value view of the external collection-metadata record.
//!
//! The metadata module itself (storage, collection verification, burning) is
//! an external collaborator; the bridge only reads two of the record's
//! fields, so those are held here as plain values. The host side
//! deserializes the on-ledger record and hands this view in.

use vstd::prelude::*;

verus! {

/// What the bridge reads of an asset's or a collection's metadata record:
/// the authority allowed to change it, and the asset URI (as UTF-8 bytes).
pub struct Metadata {
    /// The identity permitted to update the record.
    pub update_authority: [u8; 32],
    /// The asset URI, right-padded by the external module.
    pub uri: Vec<u8>,
}

} // verus!
