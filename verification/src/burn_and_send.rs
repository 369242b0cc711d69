//! Burn-and-relay: the atomic operation that validates state, extracts the
//! token id from the asset's URI, checks the allow-list, and decides the
//! three external actions — burn the asset, settle the relay fee, emit the
//! cross-chain message.
//!
//! The decisions and the payload are computed and proved here; the host
//! side performs the returned actions in one atomic unit of work, in this
//! order: burn first (so a message is never observable before the asset is
//! destroyed), then the fee (the transport wants it prepaid), then the
//! message. Any failure aborts the whole unit.

use vstd::prelude::*;

use crate::error::DustBridgingError;
use crate::instance::Instance;
use crate::instance::keys_equal;
use crate::metadata::Metadata;
use crate::uri::extract_token_id;
use crate::uri::spec_extract_token_id;

verus! {

/// Transport finality levels a message can request.
pub enum Finality {
    /// The transport may deliver after ordinary confirmation.
    Confirmed,
    /// The strongest available guarantee; the bridge always requests this.
    Finalized,
}

/// The account tuple handed to the external burn capability. The external
/// module itself checks that these accounts belong together; the bridge
/// binds the collection metadata to its instance.
pub struct BurnNft {
    /// The asset's metadata record.
    pub metadata: [u8; 32],
    /// The asset's owner; must have signed the transaction.
    pub owner: [u8; 32],
    /// The asset's mint.
    pub mint: [u8; 32],
    /// The owner's token account for the mint.
    pub token: [u8; 32],
    /// The asset's master-edition record.
    pub master_edition: [u8; 32],
    /// The collection-metadata record of the instance's collection.
    pub collection_metadata: [u8; 32],
}

/// A fee settlement the host must perform before the message is emitted.
pub struct FeeTransfer {
    /// The transaction payer.
    pub from: [u8; 32],
    /// The transport's fee collector.
    pub to: [u8; 32],
    /// Exactly the transport's current fee.
    pub amount: u64,
}

/// The message handed to the transport, authorized by the instance's
/// derived address as emitter and the per-asset message slot as storage.
pub struct PostMessage {
    /// Caller-chosen batch identifier.
    pub batch_id: u32,
    /// The fixed 22-byte payload: token id, little endian, then the
    /// 20-byte external-chain recipient.
    pub payload: Vec<u8>,
    /// The requested finality.
    pub finality: Finality,
}

/// Everything burn-and-relay decides: the extracted token id and the three
/// external actions, to be performed in order within one atomic unit.
pub struct BridgeActions {
    /// The token id extracted from the asset's URI.
    pub token_id: u16,
    /// The burn to perform first.
    pub burn: BurnNft,
    /// The fee to settle before emitting, absent when the fee is zero.
    pub fee_transfer: Option<FeeTransfer>,
    /// The message to emit last.
    pub message: PostMessage,
}

/// The accounts burn-and-relay reads, as plain values.
pub struct BurnAndSend {
    /// Pays the relay fee.
    pub payer: [u8; 32],
    /// The asset's owner.
    pub nft_owner: [u8; 32],
    /// The owner's token account.
    pub nft_token: [u8; 32],
    /// The asset's mint.
    pub nft_mint: [u8; 32],
    /// The asset's metadata record, deserialized; its URI carries the token id.
    pub nft_meta: Metadata,
    /// The address of the asset's metadata record.
    pub nft_meta_key: [u8; 32],
    /// The asset's master-edition record.
    pub nft_masteredition: [u8; 32],
    /// The presented collection-metadata address; must be the instance's.
    pub collection_meta: [u8; 32],
    /// The transport's current fee.
    pub wormhole_fee: u64,
    /// The transport's fee collector.
    pub wormhole_fee_collector: [u8; 32],
}

/// The 22-byte message payload: the token id as two little-endian bytes,
/// then the 20 recipient bytes, with no framing.
pub open spec fn spec_payload(token_id: u16, recipient: Seq<u8>) -> Seq<u8> {
    seq![(token_id % 256) as u8, (token_id / 256) as u8] + recipient
}

/// Encodes the message payload for a token id and recipient.
pub fn encode_message(token_id: u16, evm_recipient: &[u8; 20]) -> (r: Vec<u8>)
    ensures
        r@ == spec_payload(token_id, evm_recipient@),
        r@.len() == 22,
{
    let mut v: Vec<u8> = Vec::new();
    v.push((token_id % 256) as u8);
    v.push((token_id / 256) as u8);
    let mut i: usize = 0;
    while i < 20
        invariant
            i <= 20,
            v@.len() == 2 + i,
            v@ == spec_payload(token_id, evm_recipient@.take(i as int)),
        decreases 20 - i,
    {
        v.push(evm_recipient[i]);
        proof {
            assert(v@ =~= spec_payload(token_id, evm_recipient@.take(i as int + 1)));
        }
        i += 1;
    }
    proof {
        assert(evm_recipient@.take(20) =~= evm_recipient@);
    }
    v
}

/// What burn-and-relay decides for this instance and these accounts: the
/// extracted token id, or the exact error. The checks run in order:
/// pause, collection binding, URI extraction, then — only with
/// allow-listing enabled — bounds and allow-list membership.
pub open spec fn burn_outcome(i: Instance, accs: BurnAndSend) -> Result<u16, DustBridgingError>
    recommends
        i.wf(),
{
    if i.is_paused {
        Err(DustBridgingError::Paused)
    } else if accs.collection_meta@ != i.collection_meta@ {
        Err(DustBridgingError::MetadataMismatch)
    } else {
        match spec_extract_token_id(accs.nft_meta.uri@) {
            Err(e) => Err(e),
            Ok(id) => if i.spec_whitelist_enabled() {
                if id >= i.collection_size {
                    Err(DustBridgingError::TokenIdOutOfBounds)
                } else if !i.spec_is_whitelisted(id) {
                    Err(DustBridgingError::NotYetWhitelisted)
                } else {
                    Ok(id)
                }
            } else {
                Ok(id)
            },
        }
    }
}

/// Validates the instance's state against the presented accounts, extracts
/// the token id, checks the allow-list, and returns the actions the host
/// must perform — or the exact error, with nothing to perform.
///
/// The fee transfer is present iff the transport's fee is nonzero, for
/// exactly that fee; the payload is the token id (little endian) followed
/// by the recipient; the message always requests the strongest finality.
pub fn burn_and_send(
    instance: &Instance,
    accs: &BurnAndSend,
    batch_id: u32,
    evm_recipient: &[u8; 20],
) -> (r: Result<BridgeActions, DustBridgingError>)
    requires
        instance.wf(),
    ensures
        match burn_outcome(*instance, *accs) {
            Err(e) => r == Err::<BridgeActions, DustBridgingError>(e),
            Ok(id) => (r matches Ok(a) && a.token_id == id && a.burn == (BurnNft {
                metadata: accs.nft_meta_key,
                owner: accs.nft_owner,
                mint: accs.nft_mint,
                token: accs.nft_token,
                master_edition: accs.nft_masteredition,
                collection_metadata: accs.collection_meta,
            }) && a.fee_transfer == (if accs.wormhole_fee > 0 {
                Some(
                    FeeTransfer {
                        from: accs.payer,
                        to: accs.wormhole_fee_collector,
                        amount: accs.wormhole_fee,
                    },
                )
            } else {
                None::<FeeTransfer>
            }) && a.message.batch_id == batch_id && a.message.finality is Finalized
                && a.message.payload@ == spec_payload(id, evm_recipient@)),
        },
{
    if instance.is_paused {
        return Err(DustBridgingError::Paused);
    }
    if !keys_equal(&accs.collection_meta, &instance.collection_meta) {
        return Err(DustBridgingError::MetadataMismatch);
    }
    let token_id = match extract_token_id(accs.nft_meta.uri.as_slice()) {
        Ok(id) => id,
        Err(e) => {
            return Err(e);
        },
    };
    if instance.whitelist_enabled() {
        if token_id >= instance.collection_size {
            return Err(DustBridgingError::TokenIdOutOfBounds);
        }
        if !instance.is_whitelisted(token_id) {
            return Err(DustBridgingError::NotYetWhitelisted);
        }
    }
    let fee_transfer = if accs.wormhole_fee > 0 {
        Some(
            FeeTransfer {
                from: accs.payer,
                to: accs.wormhole_fee_collector,
                amount: accs.wormhole_fee,
            },
        )
    } else {
        None
    };
    Ok(
        BridgeActions {
            token_id,
            burn: BurnNft {
                metadata: accs.nft_meta_key,
                owner: accs.nft_owner,
                mint: accs.nft_mint,
                token: accs.nft_token,
                master_edition: accs.nft_masteredition,
                collection_metadata: accs.collection_meta,
            },
            fee_transfer,
            message: PostMessage {
                batch_id,
                payload: encode_message(token_id, evm_recipient),
                finality: Finality::Finalized,
            },
        },
    )
}

/// The number the first eight bytes of `s` denote, little endian.
pub open spec fn spec_le_u64(s: Seq<u8>) -> int
    recommends
        s.len() >= 8,
{
    s[0] + s[1] * 0x100 + s[2] * 0x1_0000 + s[3] * 0x100_0000 + s[4] * 0x1_0000_0000 + s[5]
        * 0x100_0000_0000 + s[6] * 0x1_0000_0000_0000 + s[7] * 0x100_0000_0000_0000
}

/// Reads the transport's per-emitter sequence number out of its sequence
/// tracker record: a little-endian `u64` at the start of the record.
pub fn read_sequence(data: &[u8]) -> (r: u64)
    requires
        data@.len() >= 8,
    ensures
        r == spec_le_u64(data@),
{
    data[0] as u64 + (data[1] as u64) * 0x100 + (data[2] as u64) * 0x1_0000 + (data[3] as u64)
        * 0x100_0000 + (data[4] as u64) * 0x1_0000_0000 + (data[5] as u64) * 0x100_0000_0000 + (
    data[6] as u64) * 0x1_0000_0000_0000 + (data[7] as u64) * 0x100_0000_0000_0000
}

/// What burn-and-relay surfaces for off-chain observers: purely
/// observational, not program state.
pub struct BridgeReceipt {
    /// The destroyed asset's mint.
    pub nft_mint: [u8; 32],
    /// The token id that was relayed.
    pub token_id: u16,
    /// The sequence number the transport assigned to the message.
    pub sequence: u64,
}

/// Assembles the audit record from the asset, the extracted token id, and
/// the transport's sequence tracker record after emission.
pub fn receipt(nft_mint: &[u8; 32], token_id: u16, sequence_data: &[u8]) -> (r: BridgeReceipt)
    requires
        sequence_data@.len() >= 8,
    ensures
        r.nft_mint == *nft_mint,
        r.token_id == token_id,
        r.sequence == spec_le_u64(sequence_data@),
{
    BridgeReceipt { nft_mint: *nft_mint, token_id, sequence: read_sequence(sequence_data) }
}

/// Pausing gates burn-and-relay, and unpausing restores it: after
/// set-paused(true) the burn outcome is `Paused` whatever the allow-list
/// or the accounts hold, and set-paused(false) on the paused record gives
/// back exactly the record with the switch off, so every later outcome is
/// that of the never-paused record.
pub proof fn lemma_set_paused_gates_burn(i: Instance, caller: [u8; 32], accs: BurnAndSend)
    requires
        i.spec_authorized(caller),
    ensures
        crate::instructions::set_paused_outcome(i, caller, true) == Ok::<
            Instance,
            DustBridgingError,
        >(Instance { is_paused: true, ..i }),
        burn_outcome(Instance { is_paused: true, ..i }, accs) == Err::<u16, DustBridgingError>(
            DustBridgingError::Paused,
        ),
        crate::instructions::set_paused_outcome(Instance { is_paused: true, ..i }, caller, false)
            == Ok::<Instance, DustBridgingError>(Instance { is_paused: false, ..i }),
{
}

} // verus!
