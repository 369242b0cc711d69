//! The allow-list bitmap: bit-indexed membership over a byte buffer.
//! Bit `i` lives in byte `i / 8` at position `i % 8`.

use vstd::prelude::*;

verus! {

/// True iff bit `id` of the bitmap is set.
pub open spec fn spec_bit(bm: Seq<u8>, id: int) -> bool
    recommends
        0 <= id,
        id / 8 < bm.len(),
{
    bm[id / 8] & (1u8 << ((id % 8) as u8)) != 0
}

/// The bitmap with bit `id` set (`value == true`) or cleared (`value == false`).
pub open spec fn spec_set_bit(bm: Seq<u8>, id: int, value: bool) -> Seq<u8>
    recommends
        0 <= id,
        id / 8 < bm.len(),
{
    if value {
        bm.update(id / 8, bm[id / 8] | (1u8 << ((id % 8) as u8)))
    } else {
        bm.update(id / 8, bm[id / 8] & !(1u8 << ((id % 8) as u8)))
    }
}

/// The bitmap after setting the bit of every id in `ids`, in order.
pub open spec fn spec_set_bits(bm: Seq<u8>, ids: Seq<u16>) -> Seq<u8>
    decreases ids.len(),
{
    if ids.len() == 0 {
        bm
    } else {
        spec_set_bit(spec_set_bits(bm, ids.drop_last()), ids.last() as int, true)
    }
}

/// Reads bit `token_id` of the bitmap.
pub fn get_bit(bm: &Vec<u8>, token_id: u16) -> (r: bool)
    requires
        token_id as int / 8 < bm@.len(),
    ensures
        r == spec_bit(bm@, token_id as int),
{
    let sh: u8 = (token_id % 8) as u8;
    bm[(token_id / 8) as usize] & (1u8 << sh) != 0
}

/// Sets or clears bit `token_id` of the bitmap in place.
pub fn set_bit(bm: &mut Vec<u8>, token_id: u16, value: bool)
    requires
        token_id as int / 8 < old(bm)@.len(),
    ensures
        final(bm)@ == spec_set_bit(old(bm)@, token_id as int, value),
{
    let i = (token_id / 8) as usize;
    let mask: u8 = 1u8 << ((token_id % 8) as u8);
    if value {
        bm[i] = bm[i] | mask;
    } else {
        bm[i] = bm[i] & !mask;
    }
    proof {
        assert(bm@ =~= spec_set_bit(old(bm)@, token_id as int, value));
    }
}

/// In one byte, setting or clearing bit `si` decides bit `si` and
/// leaves every other bit position `sj` as it was.
proof fn lemma_byte_bit(b: u8, si: u8, sj: u8)
    by (bit_vector)
    requires
        si < 8,
        sj < 8,
    ensures
        (b | (1u8 << si)) & (1u8 << si) != 0,
        (b & !(1u8 << si)) & (1u8 << si) == 0,
        si != sj ==> ((b | (1u8 << si)) & (1u8 << sj) != 0) == (b & (1u8 << sj) != 0),
        si != sj ==> ((b & !(1u8 << si)) & (1u8 << sj) != 0) == (b & (1u8 << sj) != 0),
{
}

/// After setting or clearing bit `i`, bit `i` reads as written and every
/// other bit `j` reads as before.
pub proof fn lemma_bit_set_bit(bm: Seq<u8>, i: int, j: int, value: bool)
    requires
        0 <= i,
        i / 8 < bm.len(),
        0 <= j,
        j / 8 < bm.len(),
    ensures
        spec_bit(spec_set_bit(bm, i, value), j) == if i == j {
            value
        } else {
            spec_bit(bm, j)
        },
{
    let si = (i % 8) as u8;
    let sj = (j % 8) as u8;
    lemma_byte_bit(bm[i / 8], si, sj);
    lemma_byte_bit(bm[j / 8], si, sj);
    if i != j && i / 8 == j / 8 {
        assert(i % 8 != j % 8) by {
            assert(i == 8 * (i / 8) + i % 8);
            assert(j == 8 * (j / 8) + j % 8);
        }
    }
}

/// Setting the same bit twice is the same as setting it once.
pub proof fn lemma_set_bit_idempotent(bm: Seq<u8>, id: int, value: bool)
    requires
        0 <= id,
        id / 8 < bm.len(),
    ensures
        spec_set_bit(spec_set_bit(bm, id, value), id, value) == spec_set_bit(bm, id, value),
{
    let b = bm[id / 8];
    let sh = (id % 8) as u8;
    assert((b | (1u8 << sh)) | (1u8 << sh) == b | (1u8 << sh)) by (bit_vector);
    assert((b & !(1u8 << sh)) & !(1u8 << sh) == b & !(1u8 << sh)) by (bit_vector);
    assert(spec_set_bit(spec_set_bit(bm, id, value), id, value) =~= spec_set_bit(
        bm,
        id,
        value,
    ));
}

/// Setting a batch of bits leaves the bitmap's length alone.
pub proof fn lemma_set_bits_len(bm: Seq<u8>, ids: Seq<u16>)
    requires
        forall|k: int| 0 <= k < ids.len() ==> #[trigger] ids[k] as int / 8 < bm.len(),
    ensures
        spec_set_bits(bm, ids).len() == bm.len(),
    decreases ids.len(),
{
    if ids.len() > 0 {
        lemma_set_bits_len(bm, ids.drop_last());
    }
}

/// After setting the bits of `ids`, bit `j` is set iff `j` is one of the
/// ids or was already set: exactly the requested bits change, and they
/// change to set.
pub proof fn lemma_bit_set_bits(bm: Seq<u8>, ids: Seq<u16>, j: u16)
    requires
        forall|k: int| 0 <= k < ids.len() ==> #[trigger] ids[k] as int / 8 < bm.len(),
        j as int / 8 < bm.len(),
    ensures
        spec_bit(spec_set_bits(bm, ids), j as int) == (ids.contains(j) || spec_bit(bm, j as int)),
    decreases ids.len(),
{
    if ids.len() == 0 {
        assert(!ids.contains(j));
    } else {
        let prefix = ids.drop_last();
        lemma_bit_set_bits(bm, prefix, j);
        lemma_set_bits_len(bm, prefix);
        lemma_bit_set_bit(spec_set_bits(bm, prefix), ids.last() as int, j as int, true);
        if ids.contains(j) {
            let k = choose|k: int| 0 <= k < ids.len() && ids[k] == j;
            if k < ids.len() - 1 {
                assert(prefix[k] == j);
                assert(prefix.contains(j));
            }
        }
        if prefix.contains(j) {
            let k = choose|k: int| 0 <= k < prefix.len() && prefix[k] == j;
            assert(ids[k] == j);
            assert(ids.contains(j));
        }
        if ids.last() == j {
            assert(ids.contains(j));
        }
    }
}

/// Allow-listing a token id twice leaves the same bitmap as allow-listing
/// it once.
pub proof fn lemma_whitelist_idempotent(bm: Seq<u8>, id: u16)
    requires
        id as int / 8 < bm.len(),
    ensures
        spec_set_bits(spec_set_bits(bm, seq![id]), seq![id]) == spec_set_bits(bm, seq![id]),
{
    let s1 = seq![id];
    assert(s1.drop_last() =~= Seq::<u16>::empty());
    assert(s1.last() == id);
    assert(spec_set_bits(bm, Seq::<u16>::empty()) == bm);
    assert(spec_set_bits(spec_set_bit(bm, id as int, true), Seq::<u16>::empty()) == spec_set_bit(
        bm,
        id as int,
        true,
    ));
    assert(spec_set_bits(bm, s1) == spec_set_bit(bm, id as int, true));
    assert(spec_set_bits(spec_set_bit(bm, id as int, true), s1) == spec_set_bit(
        spec_set_bit(bm, id as int, true),
        id as int,
        true,
    ));
    lemma_set_bit_idempotent(bm, id as int, true);
}

/// A zero byte has no bit set.
pub proof fn lemma_zero_byte_bit(sh: u8)
    by (bit_vector)
    requires
        sh < 8,
    ensures
        0u8 & (1u8 << sh) == 0,
{
}

} // verus!
