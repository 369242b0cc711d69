//! Deterministic address derivation: the scheme that binds a bridge
//! instance and its per-asset message slot to fixed seed material.
//!
//! An address derived from seeds plus a canonical nonce (the "bump")
//! doubles as an unforgeable capability: presenting the right seeds and
//! bump lets the program authorize an action as if signed by that address.
//! Two derivations exist here: the instance address, from
//! (`"instance"`, collection mint), and the message slot, from
//! (`"message"`, asset mint). The derivation itself is the host runtime's
//! hash construction, reached through trusted wrappers below; everything
//! stated of it is that it is a function of the seeds and program id
//! alone, and that a found bump reproduces its address.

use vstd::prelude::*;

use crate::instance::Instance;
use crate::instance::keys_equal;

verus! {

/// What the host's bump-searching derivation returns for these seeds under
/// this program id: the derived address and its canonical bump, if any.
pub uninterp spec fn pda_find(seeds: Seq<Seq<u8>>, program_id: Seq<u8>) -> Option<(Seq<u8>, u8)>;

/// What the host's direct derivation returns for these seeds (bump
/// included as the last seed) under this program id, if they derive an
/// address at all.
pub uninterp spec fn pda_create(seeds: Seq<Seq<u8>>, program_id: Seq<u8>) -> Option<Seq<u8>>;

/// The views of a list of seed buffers.
pub open spec fn seeds_view(seeds: Seq<Vec<u8>>) -> Seq<Seq<u8>> {
    seeds.map_values(|s: Vec<u8>| s@)
}

/// Relies on Pubkey::try_find_program_address: the result is a function of
/// the seeds and program id alone, and a returned bump, appended as a
/// one-byte seed, re-derives the returned address through
/// Pubkey::create_program_address.
#[verifier::external_body]
fn find_program_address(seeds: &Vec<Vec<u8>>, program_id: &[u8; 32]) -> (r: Option<([u8; 32], u8)>)
    ensures
        r is None ==> pda_find(seeds_view(seeds@), program_id@) is None,
        r matches Some((a, b)) ==> pda_find(seeds_view(seeds@), program_id@) == Some((a@, b))
            && pda_create(seeds_view(seeds@).push(seq![b]), program_id@) == Some(a@),
{
    let refs: Vec<&[u8]> = seeds.iter().map(|s| s.as_slice()).collect();
    let pk = anchor_lang::prelude::Pubkey::new_from_array(*program_id);
    anchor_lang::prelude::Pubkey::try_find_program_address(&refs, &pk).map(|(a, b)| (
        a.to_bytes(),
        b,
    ))
}

/// Relies on Pubkey::create_program_address: the result is a function of
/// the seeds and program id alone.
#[verifier::external_body]
fn create_program_address(seeds: &Vec<Vec<u8>>, program_id: &[u8; 32]) -> (r: Option<[u8; 32]>)
    ensures
        r is None ==> pda_create(seeds_view(seeds@), program_id@) is None,
        r matches Some(a) ==> pda_create(seeds_view(seeds@), program_id@) == Some(a@),
{
    let refs: Vec<&[u8]> = seeds.iter().map(|s| s.as_slice()).collect();
    let pk = anchor_lang::prelude::Pubkey::new_from_array(*program_id);
    anchor_lang::prelude::Pubkey::create_program_address(&refs, &pk).ok().map(|a| a.to_bytes())
}

/// The seed prefix of an instance address: the bytes of `"instance"`.
pub open spec fn instance_seed() -> Seq<u8> {
    seq![105u8, 110u8, 115u8, 116u8, 97u8, 110u8, 99u8, 101u8]
}

/// The seed prefix of a message slot: the bytes of `"message"`.
pub open spec fn message_seed() -> Seq<u8> {
    seq![109u8, 101u8, 115u8, 115u8, 97u8, 103u8, 101u8]
}

/// The seed material of the instance address for a collection.
pub open spec fn instance_seeds(collection_mint: Seq<u8>) -> Seq<Seq<u8>> {
    seq![instance_seed(), collection_mint]
}

/// The seed material of the message slot for an asset.
pub open spec fn message_seeds(nft_mint: Seq<u8>) -> Seq<Seq<u8>> {
    seq![message_seed(), nft_mint]
}

/// The bytes of `"instance"`.
fn instance_seed_bytes() -> (r: Vec<u8>)
    ensures
        r@ == instance_seed(),
{
    let mut v: Vec<u8> = Vec::new();
    v.push(105);
    v.push(110);
    v.push(115);
    v.push(116);
    v.push(97);
    v.push(110);
    v.push(99);
    v.push(101);
    proof {
        assert(v@ =~= instance_seed());
    }
    v
}

/// The bytes of `"message"`.
fn message_seed_bytes() -> (r: Vec<u8>)
    ensures
        r@ == message_seed(),
{
    let mut v: Vec<u8> = Vec::new();
    v.push(109);
    v.push(101);
    v.push(115);
    v.push(115);
    v.push(97);
    v.push(103);
    v.push(101);
    proof {
        assert(v@ =~= message_seed());
    }
    v
}

/// A 32-byte key as an owned buffer.
fn key_to_vec(k: &[u8; 32]) -> (r: Vec<u8>)
    ensures
        r@ == k@,
{
    let mut v: Vec<u8> = Vec::new();
    let mut i: usize = 0;
    while i < 32
        invariant
            i <= 32,
            v@ == k@.take(i as int),
        decreases 32 - i,
    {
        v.push(k[i]);
        proof {
            assert(v@ =~= k@.take(i as int + 1));
        }
        i += 1;
    }
    proof {
        assert(k@.take(32) =~= k@);
    }
    v
}

/// Derives the instance address and its canonical bump for a collection
/// under the bridge program.
pub fn derive_instance_address(collection_mint: &[u8; 32], program_id: &[u8; 32]) -> (r: Option<
    ([u8; 32], u8),
>)
    ensures
        r is None ==> pda_find(instance_seeds(collection_mint@), program_id@) is None,
        r matches Some((a, b)) ==> pda_find(instance_seeds(collection_mint@), program_id@)
            == Some((a@, b)) && pda_create(
            instance_seeds(collection_mint@).push(seq![b]),
            program_id@,
        ) == Some(a@),
{
    let mut seeds: Vec<Vec<u8>> = Vec::new();
    seeds.push(instance_seed_bytes());
    seeds.push(key_to_vec(collection_mint));
    proof {
        assert(seeds_view(seeds@) =~= instance_seeds(collection_mint@));
    }
    find_program_address(&seeds, program_id)
}

/// Derives the ephemeral message-slot address and its canonical bump for
/// an asset under the bridge program.
pub fn derive_message_address(nft_mint: &[u8; 32], program_id: &[u8; 32]) -> (r: Option<
    ([u8; 32], u8),
>)
    ensures
        r is None ==> pda_find(message_seeds(nft_mint@), program_id@) is None,
        r matches Some((a, b)) ==> pda_find(message_seeds(nft_mint@), program_id@) == Some((a@, b))
            && pda_create(message_seeds(nft_mint@).push(seq![b]), program_id@) == Some(a@),
{
    let mut seeds: Vec<Vec<u8>> = Vec::new();
    seeds.push(message_seed_bytes());
    seeds.push(key_to_vec(nft_mint));
    proof {
        assert(seeds_view(seeds@) =~= message_seeds(nft_mint@));
    }
    find_program_address(&seeds, program_id)
}

/// The address the instance signs as: its seed material completed by the
/// stored bump.
pub open spec fn spec_instance_authority(i: Instance, program_id: Seq<u8>) -> Option<Seq<u8>> {
    pda_create(instance_seeds(i.collection_mint@).push(seq![i.bump]), program_id)
}

/// Recomputes the address the instance's stored seed material and bump
/// derive, the emitter identity of every message it sends.
pub fn instance_authority(instance: &Instance, program_id: &[u8; 32]) -> (r: Option<[u8; 32]>)
    ensures
        r is None ==> spec_instance_authority(*instance, program_id@) is None,
        r matches Some(a) ==> spec_instance_authority(*instance, program_id@) == Some(a@),
{
    let mut seeds: Vec<Vec<u8>> = Vec::new();
    seeds.push(instance_seed_bytes());
    seeds.push(key_to_vec(&instance.collection_mint));
    let mut bump_seed: Vec<u8> = Vec::new();
    bump_seed.push(instance.bump);
    seeds.push(bump_seed);
    proof {
        assert(seeds_view(seeds@) =~= instance_seeds(instance.collection_mint@).push(
            seq![instance.bump],
        ));
    }
    create_program_address(&seeds, program_id)
}

/// The verification step of the derivation scheme: whether the instance's
/// stored seed material and bump reproduce the presented address, so that
/// the instance may authorize a sub-call as that address.
pub fn verify_instance_authority(instance: &Instance, program_id: &[u8; 32], presented: &[u8; 32])
    -> (r: bool)
    ensures
        r == (spec_instance_authority(*instance, program_id@) == Some(presented@)),
{
    match instance_authority(instance, program_id) {
        Some(a) => {
            let eq = keys_equal(&a, presented);
            proof {
                if a@ == presented@ {
                    assert(spec_instance_authority(*instance, program_id@) == Some(presented@));
                }
            }
            eq
        },
        None => false,
    }
}

} // verus!
