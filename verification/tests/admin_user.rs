//! Protocol configuration, collections, the one-time mint, vault burns,
//! user accounts, view rights, uploads, reveals, and performer claims.

use settlement_core::access::{buy_access_token, create_access_escrow, reveal_cid};
use settlement_core::admin::{disable_global_state_updates, initialize_protocol, update_global_state};
use settlement_core::constants::{CLAIM_VAULT_VESTING_SECONDS, VIEW_RIGHTS_VALIDITY_SECONDS};
use settlement_core::errors::ProtocolError;
use settlement_core::performer::{claim_performer_escrow, initialize_performer_escrow};
use settlement_core::state::{CollectionState, GlobalState};
use settlement_core::user::{burn_unclaimed_tokens, create_collection, initialize_user_account, mint_collection_tokens};
use settlement_core::video::upload_video;

fn test_global() -> GlobalState {
    initialize_protocol(1, 2, 3, b"u".to_vec(), b"v".to_vec(), 500, 200).unwrap()
}

fn test_collection(global: &GlobalState) -> CollectionState {
    create_collection(
        global, 10, b"cooking-101".to_vec(), b"Cooking".to_vec(), 777, 1000, 10, 2, 20, 21, 22,
        23, 2, 1_000_000,
    )
    .unwrap()
}

#[test]
fn initialize_protocol_validates_inputs() {
    assert_eq!(
        initialize_protocol(1, 2, 3, vec![b'u'; 201], b"v".to_vec(), 500, 200).unwrap_err(),
        ProtocolError::StringTooLong
    );
    assert_eq!(
        initialize_protocol(1, 2, 3, b"u".to_vec(), b"v".to_vec(), 500, 10001).unwrap_err(),
        ProtocolError::InvalidFeeConfig
    );
    let state = test_global();
    assert_eq!(state.fee_basis_points, 200);
    assert!(!state.updates_disabled);
}

#[test]
fn update_global_state_is_admin_only() {
    let mut state = test_global();
    let r = update_global_state(&mut state, 99, None, None, None, Some(150), 2, 3);
    assert_eq!(r.unwrap_err(), ProtocolError::Unauthorized);
    update_global_state(&mut state, 1, None, None, Some(600), Some(150), 7, 8).unwrap();
    assert_eq!(state.fee_basis_points, 150);
    assert_eq!(state.moderator_stake_minimum, 600);
    assert_eq!(state.treasury, 7);
    assert_eq!(state.capgm_mint, 8);
    assert_eq!(state.indexer_api_url, b"u".to_vec());
}

#[test]
fn update_rejects_overlong_url_and_bad_fee() {
    let mut state = test_global();
    let r = update_global_state(&mut state, 1, Some(vec![b'x'; 201]), None, None, None, 2, 3);
    assert_eq!(r.unwrap_err(), ProtocolError::StringTooLong);
    let r = update_global_state(&mut state, 1, None, None, None, Some(10001), 2, 3);
    assert_eq!(r.unwrap_err(), ProtocolError::InvalidFeeConfig);
    assert_eq!(state.treasury, 2);
}

#[test]
fn disabling_updates_is_permanent() {
    let mut state = test_global();
    disable_global_state_updates(&mut state, 1).unwrap();
    assert!(state.updates_disabled);
    assert_eq!(
        disable_global_state_updates(&mut state, 1).unwrap_err(),
        ProtocolError::Unauthorized
    );
    let r = update_global_state(&mut state, 1, None, None, None, Some(150), 2, 3);
    assert_eq!(r.unwrap_err(), ProtocolError::Unauthorized);
}

#[test]
fn create_collection_sizes_bitmaps() {
    let global = test_global();
    let collection = test_collection(&global);
    assert_eq!(collection.claimed_bitmap.len(), 2);
    assert_eq!(collection.censored_bitmap.len(), 2);
    assert_eq!(collection.claim_deadline, 1_000_000 + CLAIM_VAULT_VESTING_SECONDS);
    assert!(!collection.tokens_minted);
    let one_byte = create_collection(
        &global, 10, b"b".to_vec(), b"B".to_vec(), 1, 1, 8, 2, 20, 21, 22, 23, 2, 0,
    )
    .unwrap();
    assert_eq!(one_byte.claimed_bitmap.len(), 1);
}

#[test]
fn create_collection_validates_inputs() {
    let global = test_global();
    let r = create_collection(
        &global, 10, b"c".to_vec(), b"C".to_vec(), 1, 1, 0, 2, 20, 21, 22, 23, 2, 0,
    );
    assert_eq!(r.unwrap_err(), ProtocolError::InvalidFeeConfig);
    let r = create_collection(
        &global, 10, b"c".to_vec(), b"C".to_vec(), 1, 1, 10, 2, 20, 21, 22, 23, 9, 0,
    );
    assert_eq!(r.unwrap_err(), ProtocolError::Unauthorized);
}

#[test]
fn mint_distributes_ten_ten_eighty_with_dust() {
    let global = test_global();
    let mut collection = test_collection(&global);
    let dist = mint_collection_tokens(&mut collection, 10, 23, 1001).unwrap();
    assert_eq!(dist.to_creator, 100);
    assert_eq!(dist.to_claim_vault, 100);
    assert_eq!(dist.to_reserve, 801);
    assert_eq!(dist.to_creator + dist.to_claim_vault + dist.to_reserve, 1001);
    assert_eq!(collection.claim_vault_initial_amount, 100);
    assert!(collection.tokens_minted);
}

#[test]
fn mint_happens_only_once() {
    let global = test_global();
    let mut collection = test_collection(&global);
    mint_collection_tokens(&mut collection, 10, 23, 1000).unwrap();
    let r = mint_collection_tokens(&mut collection, 10, 23, 1000);
    assert_eq!(r.unwrap_err(), ProtocolError::Unauthorized);
}

#[test]
fn mint_rejects_wrong_creator_or_mint() {
    let global = test_global();
    let mut collection = test_collection(&global);
    assert_eq!(
        mint_collection_tokens(&mut collection, 11, 23, 1000).unwrap_err(),
        ProtocolError::Unauthorized
    );
    assert_eq!(
        mint_collection_tokens(&mut collection, 10, 24, 1000).unwrap_err(),
        ProtocolError::Unauthorized
    );
}

#[test]
fn vault_burn_waits_for_the_deadline() {
    let global = test_global();
    let collection = test_collection(&global);
    let before = collection.claim_deadline - 1;
    assert_eq!(
        burn_unclaimed_tokens(&collection, 500, before).unwrap_err(),
        ProtocolError::Unauthorized
    );
    assert_eq!(burn_unclaimed_tokens(&collection, 500, collection.claim_deadline).unwrap(), 500);
    assert_eq!(
        burn_unclaimed_tokens(&collection, 0, collection.claim_deadline).unwrap_err(),
        ProtocolError::InsufficientFunds
    );
}

#[test]
fn user_account_initialization() {
    let account = initialize_user_account(40, b"k51qzi5uqu5example".to_vec()).unwrap();
    assert_eq!(account.authority, 40);
    assert!(!account.is_online);
    assert_eq!(
        initialize_user_account(40, vec![b'k'; 101]).unwrap_err(),
        ProtocolError::StringTooLong
    );
}

#[test]
fn view_rights_need_threshold_value() {
    let global = test_global();
    let collection = test_collection(&global);
    let rights = buy_access_token(&collection, 5, 40, 200_000_000, 10, 9_000).unwrap();
    assert_eq!(rights.owner, 40);
    assert_eq!(rights.minted_at, 9_000);
    assert_eq!(rights.expires_at, 9_000 + VIEW_RIGHTS_VALIDITY_SECONDS);

    let r = buy_access_token(&collection, 5, 40, 99_000_000, 10, 9_000);
    assert_eq!(r.unwrap_err(), ProtocolError::InsufficientFunds);
    let r = buy_access_token(&collection, 5, 40, 0, 10, 9_000);
    assert_eq!(r.unwrap_err(), ProtocolError::InsufficientFunds);
    let r = buy_access_token(&collection, 5, 40, 200_000_000, 0, 9_000);
    assert_eq!(r.unwrap_err(), ProtocolError::InvalidOraclePrice);
}

#[test]
fn upload_counts_against_the_video_limit() {
    let global = test_global();
    let mut collection = test_collection(&global);
    upload_video(&mut collection, 5, 10, b"v1".to_vec(), b"bafy1".to_vec(), Some(70), 9_000)
        .unwrap();
    let video = upload_video(&mut collection, 5, 10, b"v2".to_vec(), b"bafy2".to_vec(), None, 9_001)
        .unwrap();
    assert_eq!(video.performer_wallet, None);
    assert_eq!(collection.video_count, 2);
    let r = upload_video(&mut collection, 5, 10, b"v3".to_vec(), b"bafy3".to_vec(), None, 9_002);
    assert_eq!(r.unwrap_err(), ProtocolError::VideoLimitExceeded);
    let r = upload_video(&mut collection, 5, 11, b"v4".to_vec(), b"bafy4".to_vec(), None, 9_003);
    assert_eq!(r.unwrap_err(), ProtocolError::Unauthorized);
}

#[test]
fn escrow_accepts_only_first_reveal() {
    let global = test_global();
    let collection = test_collection(&global);
    let mut escrow =
        create_access_escrow(&collection, 5, 40, 500, 777, 41, 1_000).unwrap();
    let reveal = reveal_cid(&mut escrow, 90, 60, b"encrypted-cid-bytes".to_vec(), 1_100).unwrap();
    assert_eq!(reveal.pinner, 60);
    assert!(escrow.is_cid_revealed);
    let r = reveal_cid(&mut escrow, 90, 61, b"other".to_vec(), 1_200);
    assert_eq!(r.unwrap_err(), ProtocolError::Unauthorized);
}

#[test]
fn reveal_rejects_empty_and_oversized_payloads() {
    let global = test_global();
    let collection = test_collection(&global);
    let mut escrow = create_access_escrow(&collection, 5, 40, 500, 777, 41, 1_000).unwrap();
    assert_eq!(
        reveal_cid(&mut escrow, 90, 60, vec![], 1_100).unwrap_err(),
        ProtocolError::InvalidFeeConfig
    );
    assert_eq!(
        reveal_cid(&mut escrow, 90, 60, vec![7; 201], 1_100).unwrap_err(),
        ProtocolError::InvalidFeeConfig
    );
    assert!(!escrow.is_cid_revealed);
}

#[test]
fn bare_escrow_creation_validates_like_a_purchase() {
    let global = test_global();
    let mut collection = test_collection(&global);
    assert_eq!(
        create_access_escrow(&collection, 5, 40, 0, 777, 41, 1_000).unwrap_err(),
        ProtocolError::InsufficientFunds
    );
    assert_eq!(
        create_access_escrow(&collection, 5, 40, 500, 778, 41, 1_000).unwrap_err(),
        ProtocolError::Unauthorized
    );
    collection.is_blacklisted = true;
    assert_eq!(
        create_access_escrow(&collection, 5, 40, 500, 777, 41, 1_000).unwrap_err(),
        ProtocolError::Unauthorized
    );
}

#[test]
fn performer_escrow_claims_reset_the_balance() {
    let mut escrow = initialize_performer_escrow(5, 70);
    assert_eq!(escrow.balance, 0);
    assert_eq!(claim_performer_escrow(&mut escrow, 70).unwrap_err(), ProtocolError::InsufficientFunds);
    escrow.balance = 400;
    assert_eq!(claim_performer_escrow(&mut escrow, 71).unwrap_err(), ProtocolError::Unauthorized);
    assert_eq!(claim_performer_escrow(&mut escrow, 70).unwrap(), 400);
    assert_eq!(escrow.balance, 0);
}
