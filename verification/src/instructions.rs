//! The administrative entry points: create the instance record, pause and
//! unpause, set the delegate, and update the allow-list one id at a time
//! or in byte-aligned bulk.
//!
//! Every operation either completes in full or returns an error and leaves
//! the record exactly as it was.

use vstd::prelude::*;

use crate::bitmap::lemma_set_bits_len;
use crate::bitmap::lemma_zero_byte_bit;
use crate::bitmap::spec_set_bits;
use crate::error::DustBridgingError;
use crate::instance::Instance;
use crate::instance::keys_equal;
use crate::instance::lemma_bit_index_in_range;
use crate::metadata::Metadata;
use crate::whitelist_bytes;

verus! {

/// The accounts the initialize operation reads, as plain values: who pays,
/// who will govern the instance, the collection mint, and the collection's
/// metadata record with its address.
pub struct Initialize {
    /// Pays for the new record; not read by the protocol logic.
    pub payer: [u8; 32],
    /// The identity that will govern the instance; must also govern the
    /// collection's metadata record.
    pub update_authority: [u8; 32],
    /// The collection to bridge.
    pub collection_mint: [u8; 32],
    /// The address of the collection's metadata record.
    pub collection_meta_key: [u8; 32],
    /// The collection's metadata record.
    pub collection_meta: Metadata,
}

/// Creates the bridge instance record for a collection.
///
/// `bump` is the canonical nonce of the instance's derived address, found
/// by `crate::pda::derive_instance_address`; the host resolves the record
/// to that address (and refuses a second record for the same collection).
/// Fails with `Unauthorized` unless the collection-metadata record's
/// update authority is the presented `update_authority`, binding
/// governance of the bridge to governance of the collection. The
/// allow-list starts all zero: nothing is allow-listed by default, and
/// `collection_size == 0` permanently disables allow-listing.
#[verifier::loop_isolation(false)]
pub fn initialize(accs: &Initialize, collection_size: u16, bump: u8) -> (r: Result<
    Instance,
    DustBridgingError,
>)
    ensures
        accs.collection_meta.update_authority@ != accs.update_authority@ ==> r == Err::<
            Instance,
            DustBridgingError,
        >(DustBridgingError::Unauthorized),
        accs.collection_meta.update_authority@ == accs.update_authority@ ==> (r matches Ok(i)
            && i.wf() && i.bump == bump && i.update_authority == accs.update_authority
            && i.collection_mint == accs.collection_mint && i.collection_meta
            == accs.collection_meta_key && i.delegate is None && !i.is_paused && i.collection_size
            == collection_size && (forall|id: u16|
            id < collection_size ==> !i.spec_is_whitelisted(id))),
{
    if !keys_equal(&accs.collection_meta.update_authority, &accs.update_authority) {
        return Err(DustBridgingError::Unauthorized);
    }
    let len = whitelist_bytes(collection_size);
    let mut bm: Vec<u8> = Vec::new();
    let mut k: usize = 0;
    while k < len
        invariant
            k <= len,
            bm@.len() == k,
            forall|j: int| 0 <= j < k ==> bm@[j] == 0u8,
        decreases len - k,
    {
        bm.push(0);
        k += 1;
    }
    let instance = Instance {
        bump,
        update_authority: accs.update_authority,
        collection_mint: accs.collection_mint,
        collection_meta: accs.collection_meta_key,
        delegate: None,
        is_paused: false,
        collection_size,
        whitelist: bm,
    };
    proof {
        assert forall|id: u16| id < collection_size implies !instance.spec_is_whitelisted(
            id,
        ) by {
            lemma_bit_index_in_range(id, collection_size);
            lemma_zero_byte_bit((id % 8) as u8);
        }
    }
    Ok(instance)
}

/// Whether `caller` is the update authority or the delegate.
fn authorized(instance: &Instance, caller: &[u8; 32]) -> (r: bool)
    ensures
        r == instance.spec_authorized(*caller),
{
    if keys_equal(caller, &instance.update_authority) {
        true
    } else {
        match &instance.delegate {
            Some(d) => keys_equal(d, caller),
            None => false,
        }
    }
}

/// What set-paused yields: the record with the flag flipped, or
/// `Unauthorized`.
pub open spec fn set_paused_outcome(i: Instance, caller: [u8; 32], is_paused: bool) -> Result<
    Instance,
    DustBridgingError,
> {
    if i.spec_authorized(caller) {
        Ok(Instance { is_paused, ..i })
    } else {
        Err(DustBridgingError::Unauthorized)
    }
}

/// Sets or clears the instance's kill switch. Authority: the update
/// authority or the delegate. A pure state flip with no other effect.
pub fn set_paused(instance: &mut Instance, caller: &[u8; 32], is_paused: bool) -> (r: Result<
    (),
    DustBridgingError,
>)
    ensures
        match set_paused_outcome(*old(instance), *caller, is_paused) {
            Ok(i2) => r == Ok::<(), DustBridgingError>(()) && *final(instance) == i2,
            Err(e) => r == Err::<(), DustBridgingError>(e) && *final(instance) == *old(instance),
        },
{
    if !authorized(instance, caller) {
        return Err(DustBridgingError::Unauthorized);
    }
    instance.is_paused = is_paused;
    Ok(())
}

/// What set-delegate yields: the record with the delegate replaced or
/// cleared, or `Unauthorized`. Only the update authority itself may do
/// this, never the delegate.
pub open spec fn set_delegate_outcome(i: Instance, caller: [u8; 32], delegate: Option<[u8; 32]>)
    -> Result<Instance, DustBridgingError> {
    if caller@ == i.update_authority@ {
        Ok(Instance { delegate, ..i })
    } else {
        Err(DustBridgingError::Unauthorized)
    }
}

/// Replaces or clears the instance's delegate. Authority: the update
/// authority only.
pub fn set_delegate(instance: &mut Instance, caller: &[u8; 32], delegate: Option<[u8; 32]>) -> (r:
    Result<(), DustBridgingError>)
    ensures
        match set_delegate_outcome(*old(instance), *caller, delegate) {
            Ok(i2) => r == Ok::<(), DustBridgingError>(()) && *final(instance) == i2,
            Err(e) => r == Err::<(), DustBridgingError>(e) && *final(instance) == *old(instance),
        },
{
    if !keys_equal(caller, &instance.update_authority) {
        return Err(DustBridgingError::Unauthorized);
    }
    instance.delegate = delegate;
    Ok(())
}

/// What a single-id allow-list update yields: the bitmap with every id's
/// bit set, `Unauthorized`, or `TokenIdOutOfBounds` when any id is at or
/// beyond the collection size (with size 0, any id at all).
pub open spec fn whitelist_outcome(i: Instance, caller: [u8; 32], ids: Seq<u16>) -> Result<
    Seq<u8>,
    DustBridgingError,
> {
    if !i.spec_authorized(caller) {
        Err(DustBridgingError::Unauthorized)
    } else if exists|k: int| 0 <= k < ids.len() && (#[trigger] ids[k]) >= i.collection_size {
        Err(DustBridgingError::TokenIdOutOfBounds)
    } else {
        Ok(spec_set_bits(i.whitelist@, ids))
    }
}

/// Sets the allow-list bit of each given token id. Authority: the update
/// authority or the delegate. Fails with `TokenIdOutOfBounds` if any id is
/// at or beyond the collection size, and then changes nothing: the update
/// is all-or-nothing.
#[verifier::loop_isolation(false)]
pub fn whitelist(instance: &mut Instance, caller: &[u8; 32], token_ids: &Vec<u16>) -> (r: Result<
    (),
    DustBridgingError,
>)
    requires
        old(instance).wf(),
    ensures
        final(instance).wf(),
        match whitelist_outcome(*old(instance), *caller, token_ids@) {
            Ok(bm) => r == Ok::<(), DustBridgingError>(()) && *final(instance) == (Instance {
                whitelist: final(instance).whitelist,
                ..*old(instance)
            }) && final(instance).whitelist@ == bm,
            Err(e) => r == Err::<(), DustBridgingError>(e) && *final(instance) == *old(instance),
        },
{
    if !authorized(instance, caller) {
        return Err(DustBridgingError::Unauthorized);
    }
    let n = token_ids.len();
    let mut k: usize = 0;
    while k < n
        invariant
            k <= n,
            n == token_ids@.len(),
            forall|j: int| 0 <= j < k ==> (#[trigger] token_ids@[j]) < instance.collection_size,
        decreases n - k,
    {
        if token_ids[k] >= instance.collection_size {
            return Err(DustBridgingError::TokenIdOutOfBounds);
        }
        k += 1;
    }
    let ghost i0 = *instance;
    let mut k: usize = 0;
    while k < n
        invariant
            k <= n,
            n == token_ids@.len(),
            i0.wf(),
            forall|j: int| 0 <= j < n ==> (#[trigger] token_ids@[j]) < i0.collection_size,
            *instance == (Instance { whitelist: instance.whitelist, ..i0 }),
            instance.whitelist@ == spec_set_bits(i0.whitelist@, token_ids@.take(k as int)),
        decreases n - k,
    {
        proof {
            assert forall|j: int|
                0 <= j < token_ids@.take(k as int).len() implies (#[trigger] token_ids@.take(
                k as int,
            )[j]) as int / 8 < i0.whitelist@.len() by {
                lemma_bit_index_in_range(token_ids@[j], i0.collection_size);
            }
            lemma_set_bits_len(i0.whitelist@, token_ids@.take(k as int));
            lemma_bit_index_in_range(token_ids@[k as int], i0.collection_size);
        }
        crate::bitmap::set_bit(&mut instance.whitelist, token_ids[k], true);
        proof {
            assert(token_ids@.take(k as int + 1).drop_last() =~= token_ids@.take(k as int));
            assert(token_ids@.take(k as int + 1).last() == token_ids@[k as int]);
        }
        k += 1;
    }
    proof {
        assert(token_ids@.take(n as int) =~= token_ids@);
        assert forall|j: int|
            0 <= j < token_ids@.len() implies (#[trigger] token_ids@[j]) as int / 8
            < i0.whitelist@.len() by {
            lemma_bit_index_in_range(token_ids@[j], i0.collection_size);
        }
        lemma_set_bits_len(i0.whitelist@, token_ids@);
    }
    Ok(())
}

/// The bitmap with the byte range starting at `start` replaced by `bytes`.
pub open spec fn spec_overwrite(bm: Seq<u8>, start: int, bytes: Seq<u8>) -> Seq<u8> {
    Seq::new(
        bm.len(),
        |j: int|
            if start <= j < start + bytes.len() {
                bytes[j - start]
            } else {
                bm[j]
            },
    )
}

/// What a bulk allow-list update yields: the bitmap with the whole bytes
/// starting at byte `offset / 8` replaced, `Unauthorized`, or
/// `BulkRangeOverflow` when the replacement would run past the bitmap.
pub open spec fn whitelist_bulk_outcome(i: Instance, caller: [u8; 32], offset: u16, bytes: Seq<u8>)
    -> Result<Seq<u8>, DustBridgingError> {
    if !i.spec_authorized(caller) {
        Err(DustBridgingError::Unauthorized)
    } else if offset as int / 8 + bytes.len() > i.whitelist@.len() {
        Err(DustBridgingError::BulkRangeOverflow)
    } else {
        Ok(spec_overwrite(i.whitelist@, offset as int / 8, bytes))
    }
}

/// Overwrites a contiguous, byte-aligned region of the allow-list bitmap,
/// starting at byte `offset / 8`. Authority: the update authority or the
/// delegate. Fails with `BulkRangeOverflow` if the region would run past
/// the bitmap, and then changes nothing. Byte `i` of `bytes` carries the
/// bits of token ids `8 * (offset / 8 + i)` through `8 * (offset / 8 + i) + 7`.
#[verifier::loop_isolation(false)]
pub fn whitelist_bulk(instance: &mut Instance, caller: &[u8; 32], offset: u16, bytes: &Vec<u8>)
    -> (r: Result<(), DustBridgingError>)
    requires
        old(instance).wf(),
    ensures
        final(instance).wf(),
        match whitelist_bulk_outcome(*old(instance), *caller, offset, bytes@) {
            Ok(bm) => r == Ok::<(), DustBridgingError>(()) && *final(instance) == (Instance {
                whitelist: final(instance).whitelist,
                ..*old(instance)
            }) && final(instance).whitelist@ == bm,
            Err(e) => r == Err::<(), DustBridgingError>(e) && *final(instance) == *old(instance),
        },
{
    if !authorized(instance, caller) {
        return Err(DustBridgingError::Unauthorized);
    }
    let start = (offset / 8) as usize;
    let n = bytes.len();
    if n > instance.whitelist.len() || start > instance.whitelist.len() - n {
        return Err(DustBridgingError::BulkRangeOverflow);
    }
    let ghost i0 = *instance;
    let mut k: usize = 0;
    while k < n
        invariant
            k <= n,
            n == bytes@.len(),
            start + n <= i0.whitelist@.len(),
            *instance == (Instance { whitelist: instance.whitelist, ..i0 }),
            instance.whitelist@ == spec_overwrite(i0.whitelist@, start as int, bytes@.take(k as int)),
        decreases n - k,
    {
        instance.whitelist[start + k] = bytes[k];
        proof {
            assert(instance.whitelist@ =~= spec_overwrite(
                i0.whitelist@,
                start as int,
                bytes@.take(k as int + 1),
            ));
        }
        k += 1;
    }
    proof {
        assert(bytes@.take(n as int) =~= bytes@);
        assert(instance.whitelist@.len() == i0.whitelist@.len());
    }
    Ok(())
}

/// How a byte-aligned bulk update reads back bit by bit: inside the
/// replaced region, bit `j` of the bitmap is bit `j - 8 * start` of the
/// replacement bytes; outside it, every bit is untouched.
pub proof fn lemma_bulk_bits(bm: Seq<u8>, start: int, bytes: Seq<u8>, j: int)
    requires
        0 <= start,
        start + bytes.len() <= bm.len(),
        0 <= j,
        j / 8 < bm.len(),
    ensures
        crate::bitmap::spec_bit(spec_overwrite(bm, start, bytes), j) == if start <= j / 8 < start
            + bytes.len() {
            crate::bitmap::spec_bit(bytes, j - 8 * start)
        } else {
            crate::bitmap::spec_bit(bm, j)
        },
{
    if start <= j / 8 < start + bytes.len() {
        assert((j - 8 * start) / 8 == j / 8 - start && (j - 8 * start) % 8 == j % 8)
            by (nonlinear_arith)
            requires
                0 <= start,
                0 <= j,
        ;
    }
}


/// After a successful allow-list update, exactly the requested token ids
/// read as allow-listed beyond those already set: the updated ids read
/// true, and every id not requested reads as it did before.
pub proof fn lemma_whitelist_sets_exactly(i: Instance, caller: [u8; 32], ids: Seq<u16>, j: u16)
    requires
        i.wf(),
        whitelist_outcome(i, caller, ids) is Ok,
        j < i.collection_size,
    ensures
        (whitelist_outcome(i, caller, ids) matches Ok(bm) && crate::bitmap::spec_bit(bm, j as int)
            == (ids.contains(j) || i.spec_is_whitelisted(j))),
{
    assert forall|k: int| 0 <= k < ids.len() implies (#[trigger] ids[k]) as int / 8
        < i.whitelist@.len() by {
        assert(ids[k] < i.collection_size);
        lemma_bit_index_in_range(ids[k], i.collection_size);
    }
    lemma_bit_index_in_range(j, i.collection_size);
    crate::bitmap::lemma_bit_set_bits(i.whitelist@, ids, j);
}

/// After a successful bulk update, a token id inside the replaced
/// byte-aligned region reads its bit out of the replacement bytes, and
/// every id outside it reads exactly as before.
pub proof fn lemma_whitelist_bulk_sets_exactly(
    i: Instance,
    caller: [u8; 32],
    offset: u16,
    bytes: Seq<u8>,
    j: u16,
)
    requires
        i.wf(),
        whitelist_bulk_outcome(i, caller, offset, bytes) is Ok,
        j < i.collection_size,
    ensures
        (whitelist_bulk_outcome(i, caller, offset, bytes) matches Ok(bm)
            && crate::bitmap::spec_bit(bm, j as int) == if 8 * (offset as int / 8) <= j < 8 * (
        offset as int / 8 + bytes.len()) {
            crate::bitmap::spec_bit(bytes, j - 8 * (offset as int / 8))
        } else {
            i.spec_is_whitelisted(j)
        }),
{
    let start = offset as int / 8;
    lemma_bit_index_in_range(j, i.collection_size);
    lemma_bulk_bits(i.whitelist@, start, bytes, j as int);
    assert((start <= j as int / 8 < start + bytes.len()) == (8 * start <= j < 8 * (start
        + bytes.len()))) by (nonlinear_arith)
        requires
            0 <= start,
            0 <= j,
    ;
}

} // verus!
