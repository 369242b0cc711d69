//! Allow-list behaviour: single-id updates, bulk updates, authority,
//! bounds, and idempotence.

use dust_bridging::error::DustBridgingError;
use dust_bridging::instance::Instance;
use dust_bridging::instructions::{
    initialize, set_delegate, set_paused, whitelist, whitelist_bulk, Initialize,
};
use dust_bridging::metadata::Metadata;

const ADMIN: [u8; 32] = [7u8; 32];
const STRANGER: [u8; 32] = [9u8; 32];
const DELEGATE: [u8; 32] = [11u8; 32];

fn fresh_instance(collection_size: u16) -> Instance {
    let accs = Initialize {
        payer: [1u8; 32],
        update_authority: ADMIN,
        collection_mint: [2u8; 32],
        collection_meta_key: [3u8; 32],
        collection_meta: Metadata {
            update_authority: ADMIN,
            uri: Vec::new(),
        },
    };
    initialize(&accs, collection_size, 254).expect("authority matches")
}

#[test]
fn initialize_sizes_bitmap() {
    assert_eq!(fresh_instance(0).whitelist.len(), 0);
    assert_eq!(fresh_instance(1).whitelist.len(), 1);
    assert_eq!(fresh_instance(8).whitelist.len(), 1);
    assert_eq!(fresh_instance(9).whitelist.len(), 2);
    assert_eq!(fresh_instance(5000).whitelist.len(), 625);
}

#[test]
fn initialize_rejects_foreign_authority() {
    let accs = Initialize {
        payer: [1u8; 32],
        update_authority: ADMIN,
        collection_mint: [2u8; 32],
        collection_meta_key: [3u8; 32],
        collection_meta: Metadata {
            update_authority: STRANGER,
            uri: Vec::new(),
        },
    };
    assert!(matches!(
        initialize(&accs, 4, 254),
        Err(DustBridgingError::Unauthorized)
    ));
}

#[test]
fn initialize_starts_empty() {
    let i = fresh_instance(16);
    for id in 0..16u16 {
        assert!(!i.is_whitelisted(id));
    }
}

#[test]
fn whitelist_sets_exactly_the_requested_bits() {
    let mut i = fresh_instance(16);
    whitelist(&mut i, &ADMIN, &vec![3, 11]).unwrap();
    for id in 0..16u16 {
        assert_eq!(i.is_whitelisted(id), id == 3 || id == 11);
    }
}

#[test]
fn whitelist_rejects_out_of_bounds_id() {
    let mut i = fresh_instance(16);
    let before = i.whitelist.clone();
    assert_eq!(
        whitelist(&mut i, &ADMIN, &vec![3, 16]),
        Err(DustBridgingError::TokenIdOutOfBounds)
    );
    assert_eq!(i.whitelist, before);
    assert!(!i.is_whitelisted(3));
}

#[test]
fn whitelist_rejects_any_id_when_disabled() {
    let mut i = fresh_instance(0);
    assert_eq!(
        whitelist(&mut i, &ADMIN, &vec![0]),
        Err(DustBridgingError::TokenIdOutOfBounds)
    );
}

#[test]
fn whitelist_rejects_stranger() {
    let mut i = fresh_instance(16);
    assert_eq!(
        whitelist(&mut i, &STRANGER, &vec![3]),
        Err(DustBridgingError::Unauthorized)
    );
    assert!(!i.is_whitelisted(3));
}

#[test]
fn whitelist_twice_is_once() {
    let mut once = fresh_instance(16);
    whitelist(&mut once, &ADMIN, &vec![5]).unwrap();
    let mut twice = fresh_instance(16);
    whitelist(&mut twice, &ADMIN, &vec![5]).unwrap();
    whitelist(&mut twice, &ADMIN, &vec![5]).unwrap();
    assert_eq!(once.whitelist, twice.whitelist);
}

#[test]
fn whitelist_bulk_sets_bits_eight_to_fifteen_only() {
    let mut i = fresh_instance(32);
    whitelist_bulk(&mut i, &ADMIN, 8, &vec![0xFF]).unwrap();
    for id in 0..32u16 {
        assert_eq!(i.is_whitelisted(id), 8 <= id && id < 16);
    }
}

#[test]
fn whitelist_bulk_rejects_overflowing_range() {
    let mut i = fresh_instance(16);
    let before = i.whitelist.clone();
    assert_eq!(
        whitelist_bulk(&mut i, &ADMIN, 8, &vec![0xFF, 0xFF]),
        Err(DustBridgingError::BulkRangeOverflow)
    );
    assert_eq!(i.whitelist, before);
}

#[test]
fn whitelist_bulk_rejects_stranger() {
    let mut i = fresh_instance(16);
    assert_eq!(
        whitelist_bulk(&mut i, &STRANGER, 0, &vec![0xFF]),
        Err(DustBridgingError::Unauthorized)
    );
}

#[test]
fn delegate_may_update_allow_list_and_pause() {
    let mut i = fresh_instance(16);
    set_delegate(&mut i, &ADMIN, Some(DELEGATE)).unwrap();
    whitelist(&mut i, &DELEGATE, &vec![2]).unwrap();
    assert!(i.is_whitelisted(2));
    set_paused(&mut i, &DELEGATE, true).unwrap();
    assert!(i.is_paused);
}

#[test]
fn delegate_may_not_set_delegate() {
    let mut i = fresh_instance(16);
    set_delegate(&mut i, &ADMIN, Some(DELEGATE)).unwrap();
    assert_eq!(
        set_delegate(&mut i, &DELEGATE, None),
        Err(DustBridgingError::Unauthorized)
    );
    assert_eq!(i.delegate, Some(DELEGATE));
}

#[test]
fn clearing_delegate_revokes_it() {
    let mut i = fresh_instance(16);
    set_delegate(&mut i, &ADMIN, Some(DELEGATE)).unwrap();
    set_delegate(&mut i, &ADMIN, None).unwrap();
    assert_eq!(
        whitelist(&mut i, &DELEGATE, &vec![2]),
        Err(DustBridgingError::Unauthorized)
    );
}
