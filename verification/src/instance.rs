//! The durable per-collection bridge instance record: authority, pause
//! state, and the token allow-list bitmap.

use vstd::prelude::*;

use crate::bitmap::spec_bit;
use crate::spec_whitelist_bytes;

verus! {

/// The bridge instance record; it doubles as the emitter identity of every
/// message the bridge sends for its collection.
pub struct Instance {
    /// Nonce completing the instance's deterministic address derivation;
    /// required for signing with the instance account. Immutable.
    pub bump: u8,
    /// Identity permitted to perform administrative operations. Immutable.
    pub update_authority: [u8; 32],
    /// The bridged collection; a seed of the instance's derived address. Immutable.
    pub collection_mint: [u8; 32],
    /// Address of the collection-metadata record, used to authenticate that
    /// burned assets belong to this collection. Immutable.
    pub collection_meta: [u8; 32],
    /// Secondary authority, settable by `update_authority`.
    pub delegate: Option<[u8; 32]>,
    /// Global kill switch: when true, burn-and-relay is refused.
    pub is_paused: bool,
    /// 0 disables the allow-list; otherwise token ids must lie in
    /// `[0, collection_size)` and be allow-listed.
    pub collection_size: u16,
    /// The allow-list bitmap, `ceil(collection_size / 8)` bytes for its
    /// whole lifetime; bit `i` set means token id `i` may be bridged.
    pub whitelist: Vec<u8>,
}

impl Instance {
    /// The record's invariant: the bitmap holds exactly one bit per token id,
    /// rounded up to whole bytes, for the record's whole lifetime.
    pub open spec fn wf(self) -> bool {
        self.whitelist@.len() == spec_whitelist_bytes(self.collection_size)
    }

    /// Whether the allow-list gates bridging for this instance.
    pub open spec fn spec_whitelist_enabled(self) -> bool {
        self.collection_size > 0
    }

    /// Whether token id `token_id` is allow-listed.
    pub open spec fn spec_is_whitelisted(self, token_id: u16) -> bool
        recommends
            self.wf(),
            token_id < self.collection_size,
    {
        spec_bit(self.whitelist@, token_id as int)
    }

    /// Whether `caller` may perform operations open to the update authority
    /// or the delegate.
    pub open spec fn spec_authorized(self, caller: [u8; 32]) -> bool {
        caller@ == self.update_authority@ || (match self.delegate {
            Some(d) => d@ == caller@,
            None => false,
        })
    }

    /// Allow-listing is enabled iff the collection size is nonzero.
    pub fn whitelist_enabled(&self) -> (r: bool)
        ensures
            r == self.spec_whitelist_enabled(),
    {
        self.collection_size > 0
    }

    /// Reads token id `token_id`'s bit of the allow-list.
    ///
    /// Callers must have checked `token_id < collection_size` first; an id
    /// at or beyond the collection size is a caller fault, not an
    /// allow-list miss.
    pub fn is_whitelisted(&self, token_id: u16) -> (r: bool)
        requires
            self.wf(),
            token_id < self.collection_size,
        ensures
            r == self.spec_is_whitelisted(token_id),
    {
        proof {
            lemma_bit_index_in_range(token_id, self.collection_size);
        }
        crate::bitmap::get_bit(&self.whitelist, token_id)
    }
}

/// A token id below the collection size indexes a byte inside the bitmap.
pub proof fn lemma_bit_index_in_range(token_id: u16, collection_size: u16)
    requires
        token_id < collection_size,
    ensures
        token_id as int / 8 < spec_whitelist_bytes(collection_size),
{
    assert(token_id as int / 8 < (collection_size as int + 7) / 8) by (nonlinear_arith)
        requires
            token_id < collection_size,
    ;
}

/// Compares two 32-byte keys.
pub fn keys_equal(a: &[u8; 32], b: &[u8; 32]) -> (r: bool)
    ensures
        r == (a@ == b@),
{
    let mut i: usize = 0;
    while i < 32
        invariant
            i <= 32,
            forall|k: int| 0 <= k < i ==> a@[k] == b@[k],
        decreases 32 - i,
    {
        if a[i] != b[i] {
            return false;
        }
        i += 1;
    }
    proof {
        assert(a@ =~= b@);
    }
    true
}

} // verus!
