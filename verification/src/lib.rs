//! Settlement logic of a one-directional NFT bridge: a durable per-collection
//! bridge instance with pause and allow-list state, bit-level allow-list
//! updates, deterministic address derivation for signing authority, and the
//! atomic burn-and-relay orchestration that destroys a certified asset and
//! emits a cross-chain message for it.

use vstd::prelude::*;

pub mod bitmap;
pub mod burn_and_send;
pub mod error;
pub mod instance;
pub mod metadata;
pub mod instructions;
pub mod pda;
pub mod uri;

verus! {

/// Number of bitmap bytes needed for a collection of the given size:
/// one bit per token id, rounded up to whole bytes.
pub open spec fn spec_whitelist_bytes(collection_size: u16) -> int {
    (collection_size + 7) / 8
}

/// Size in bytes of the allow-list bitmap for a collection of
/// `collection_size` token ids.
pub fn whitelist_bytes(collection_size: u16) -> (r: usize)
    ensures
        r == spec_whitelist_bytes(collection_size),
{
    (collection_size / 8 + if collection_size % 8 > 0 { 1 } else { 0 }) as usize
}

} // verus!
