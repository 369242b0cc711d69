//! Burn-and-relay: pause gating, collection binding, allow-list gating,
//! and the decided actions down to the exact payload bytes.

use dust_bridging::burn_and_send::{burn_and_send, read_sequence, receipt, BurnAndSend, Finality};
use dust_bridging::error::DustBridgingError;
use dust_bridging::instance::Instance;
use dust_bridging::instructions::{initialize, set_paused, whitelist, Initialize};
use dust_bridging::metadata::Metadata;

const ADMIN: [u8; 32] = [7u8; 32];
const COLLECTION_META: [u8; 32] = [3u8; 32];
const RECIPIENT: [u8; 20] = [
    0xAA, 1, 2, 3, 4, 5, 6, 7, 8, 9, 10, 11, 12, 13, 14, 15, 16, 17, 18, 0xBB,
];

fn fresh_instance(collection_size: u16) -> Instance {
    let accs = Initialize {
        payer: [1u8; 32],
        update_authority: ADMIN,
        collection_mint: [2u8; 32],
        collection_meta_key: COLLECTION_META,
        collection_meta: Metadata {
            update_authority: ADMIN,
            uri: Vec::new(),
        },
    };
    initialize(&accs, collection_size, 254).expect("authority matches")
}

fn accounts(uri: &[u8], fee: u64) -> BurnAndSend {
    BurnAndSend {
        payer: [20u8; 32],
        nft_owner: [21u8; 32],
        nft_token: [22u8; 32],
        nft_mint: [23u8; 32],
        nft_meta: Metadata {
            update_authority: ADMIN,
            uri: uri.to_vec(),
        },
        nft_meta_key: [24u8; 32],
        nft_masteredition: [25u8; 32],
        collection_meta: COLLECTION_META,
        wormhole_fee: fee,
        wormhole_fee_collector: [26u8; 32],
    }
}

#[test]
fn paused_instance_refuses_burn_and_unpausing_restores_it() {
    let mut i = fresh_instance(0);
    set_paused(&mut i, &ADMIN, true).unwrap();
    let r = burn_and_send(&i, &accounts(b"https://x/1.json", 0), 1, &RECIPIENT);
    assert!(matches!(r, Err(DustBridgingError::Paused)));
    set_paused(&mut i, &ADMIN, false).unwrap();
    let r = burn_and_send(&i, &accounts(b"https://x/1.json", 0), 1, &RECIPIENT);
    assert!(r.is_ok());
}

#[test]
fn foreign_collection_metadata_is_refused() {
    let i = fresh_instance(0);
    let mut accs = accounts(b"https://x/1.json", 0);
    accs.collection_meta = [99u8; 32];
    let r = burn_and_send(&i, &accs, 1, &RECIPIENT);
    assert!(matches!(r, Err(DustBridgingError::MetadataMismatch)));
}

#[test]
fn malformed_uri_aborts_the_operation() {
    let i = fresh_instance(0);
    let r = burn_and_send(&i, &accounts(b"no-token-here", 0), 1, &RECIPIENT);
    assert!(matches!(r, Err(DustBridgingError::MalformedUri)));
}

#[test]
fn disabled_allow_list_accepts_any_extracted_id() {
    let i = fresh_instance(0);
    let r = burn_and_send(&i, &accounts(b"https://x/3250.json", 0), 1, &RECIPIENT).unwrap();
    assert_eq!(r.token_id, 3250);
}

#[test]
fn unlisted_token_is_refused_until_whitelisted() {
    let mut i = fresh_instance(5000);
    let accs = accounts(b"https://x/3250.json", 0);
    let r = burn_and_send(&i, &accs, 1, &RECIPIENT);
    assert!(matches!(r, Err(DustBridgingError::NotYetWhitelisted)));
    whitelist(&mut i, &ADMIN, &vec![3250]).unwrap();
    let r = burn_and_send(&i, &accs, 1, &RECIPIENT).unwrap();
    assert_eq!(r.token_id, 3250);
}

#[test]
fn out_of_bounds_token_is_refused() {
    let i = fresh_instance(5);
    let r = burn_and_send(&i, &accounts(b"https://x/7.json", 0), 1, &RECIPIENT);
    assert!(matches!(r, Err(DustBridgingError::TokenIdOutOfBounds)));
}

#[test]
fn end_to_end_single_token_bridge() {
    let mut i = fresh_instance(1);
    whitelist(&mut i, &ADMIN, &vec![0]).unwrap();
    let accs = accounts(b"https://x/0.json", 0);
    let actions = burn_and_send(&i, &accs, 1, &RECIPIENT).unwrap();

    assert_eq!(actions.token_id, 0);

    // the burn tuple names exactly the presented accounts
    assert_eq!(actions.burn.metadata, accs.nft_meta_key);
    assert_eq!(actions.burn.owner, accs.nft_owner);
    assert_eq!(actions.burn.mint, accs.nft_mint);
    assert_eq!(actions.burn.token, accs.nft_token);
    assert_eq!(actions.burn.master_edition, accs.nft_masteredition);
    assert_eq!(actions.burn.collection_metadata, accs.collection_meta);

    // zero fee: the transfer is skipped, never a zero-value transfer
    assert!(actions.fee_transfer.is_none());

    // payload: token id 0 little endian, then the 20 recipient bytes
    let mut expected = vec![0u8, 0u8];
    expected.extend_from_slice(&RECIPIENT);
    assert_eq!(actions.message.payload, expected);
    assert_eq!(actions.message.batch_id, 1);
    assert!(matches!(actions.message.finality, Finality::Finalized));

    // the transport's tracker record yields the assigned sequence number
    let tracker = [42u8, 0, 0, 0, 0, 0, 0, 0];
    assert_eq!(read_sequence(&tracker), 42);
    let rec = receipt(&accs.nft_mint, actions.token_id, &tracker);
    assert_eq!(rec.nft_mint, accs.nft_mint);
    assert_eq!(rec.token_id, 0);
    assert_eq!(rec.sequence, 42);
}

#[test]
fn nonzero_fee_is_settled_exactly() {
    let i = fresh_instance(0);
    let accs = accounts(b"https://x/1.json", 5);
    let actions = burn_and_send(&i, &accs, 1, &RECIPIENT).unwrap();
    let fee = actions.fee_transfer.expect("fee is due");
    assert_eq!(fee.amount, 5);
    assert_eq!(fee.from, accs.payer);
    assert_eq!(fee.to, accs.wormhole_fee_collector);
}

#[test]
fn payload_is_little_endian_token_id_then_recipient() {
    let i = fresh_instance(0);
    let actions = burn_and_send(&i, &accounts(b"https://x/4660.json", 0), 9, &RECIPIENT).unwrap();
    // 4660 == 0x1234
    assert_eq!(actions.message.payload.len(), 22);
    assert_eq!(actions.message.payload[0], 0x34);
    assert_eq!(actions.message.payload[1], 0x12);
    assert_eq!(&actions.message.payload[2..], &RECIPIENT);
}

#[test]
fn sequence_number_is_read_little_endian() {
    let data = [1u8, 2, 3, 4, 5, 6, 7, 8];
    assert_eq!(read_sequence(&data), 0x0807060504030201);
    assert_eq!(read_sequence(&[0xFF; 8]), u64::MAX);
}
