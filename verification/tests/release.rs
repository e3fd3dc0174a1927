//! Escrow release and burn: weighted payouts, clamping, trust updates,
//! the expiry boundary, and every refusal.

use settlement_core::access::{burn_expired_escrow, initialize_peer_trust_state, release_escrow};
use settlement_core::constants::ESCROW_EXPIRY_SECONDS;
use settlement_core::errors::ProtocolError;
use settlement_core::state::{AccessEscrow, CollectionState, PeerTrustState};

fn test_escrow(locked: u64) -> AccessEscrow {
    AccessEscrow {
        purchaser: 40,
        collection: 5,
        access_nft_mint: 41,
        cid_hash: 777,
        amount_locked: locked,
        created_at: 1_000,
        is_cid_revealed: false,
    }
}

fn test_collection() -> CollectionState {
    CollectionState {
        owner: 10,
        collection_id: b"cooking-101".to_vec(),
        cid_hash: 777,
        mint: 23,
        pool_address: 21,
        claim_vault: 22,
        claim_deadline: 2_000_000,
        total_trust_score: 0,
        is_blacklisted: false,
        name: b"Cooking".to_vec(),
        access_threshold_usd: 1000,
        oracle_feed: 20,
        owner_reward_balance: 0,
        staker_reward_balance: 0,
        tokens_minted: false,
        total_videos: 10,
        claim_vault_initial_amount: 0,
        claimed_bitmap: vec![0, 0],
        censored_bitmap: vec![0, 0],
        total_shares: 0,
        acc_reward_per_share: 0,
        reward_pool_balance: 0,
        video_count: 0,
        max_video_limit: 100,
    }
}

#[test]
fn release_hundred_over_three_equal_peers() {
    let mut escrow = test_escrow(100);
    let mut collection = test_collection();
    let mut trust = vec![None, None, None];
    let wallets = vec![61, 62, 63];
    let weights = vec![1, 1, 1];
    let amounts =
        release_escrow(&mut escrow, &mut collection, &mut trust, 5, 40, &wallets, &weights, 1_500)
            .unwrap();
    assert_eq!(amounts, vec![33, 33, 33]);
    assert_eq!(amounts.iter().sum::<u64>(), 99);
    assert_eq!(escrow.amount_locked, 0);
    assert_eq!(collection.total_trust_score, 3);
}

#[test]
fn release_clamps_rounding_to_locked_amount() {
    let mut escrow = test_escrow(10);
    let mut collection = test_collection();
    let mut trust = vec![None, None, None];
    let wallets = vec![61, 62, 63];
    let weights = vec![1, 1, 1];
    let amounts =
        release_escrow(&mut escrow, &mut collection, &mut trust, 5, 40, &wallets, &weights, 1_500)
            .unwrap();
    let total: u64 = amounts.iter().sum();
    assert!(total <= 10);
    assert_eq!(escrow.amount_locked, 0);
}

#[test]
fn release_weights_payouts_proportionally() {
    let mut escrow = test_escrow(1000);
    let mut collection = test_collection();
    let mut trust = vec![None, None];
    let wallets = vec![61, 62];
    let weights = vec![3, 1];
    let amounts =
        release_escrow(&mut escrow, &mut collection, &mut trust, 5, 40, &wallets, &weights, 1_500)
            .unwrap();
    assert_eq!(amounts, vec![750, 250]);
}

#[test]
fn release_updates_existing_trust_records_only() {
    let mut escrow = test_escrow(100);
    let mut collection = test_collection();
    let prior = PeerTrustState {
        peer_wallet: 61,
        total_successful_serves: 4,
        trust_score: 9,
        last_active: 800,
    };
    let mut trust = vec![Some(prior), None];
    let wallets = vec![61, 62];
    let weights = vec![2, 3];
    release_escrow(&mut escrow, &mut collection, &mut trust, 5, 40, &wallets, &weights, 1_500)
        .unwrap();
    let updated = trust[0].unwrap();
    assert_eq!(updated.total_successful_serves, 5);
    assert_eq!(updated.trust_score, 11);
    assert_eq!(updated.last_active, 1_500);
    assert!(trust[1].is_none());
}

#[test]
fn release_rejects_trust_record_of_other_wallet() {
    let mut escrow = test_escrow(100);
    let mut collection = test_collection();
    let stray = initialize_peer_trust_state(99, 800);
    let mut trust = vec![Some(stray)];
    let r = release_escrow(&mut escrow, &mut collection, &mut trust, 5, 40, &vec![61], &vec![1], 1_500);
    assert_eq!(r.unwrap_err(), ProtocolError::Unauthorized);
    assert_eq!(escrow.amount_locked, 100);
    assert_eq!(collection.total_trust_score, 0);
}

#[test]
fn release_at_expiry_boundary_succeeds() {
    let mut escrow = test_escrow(100);
    let mut collection = test_collection();
    let mut trust = vec![None];
    let now = 1_000 + ESCROW_EXPIRY_SECONDS;
    let r = release_escrow(&mut escrow, &mut collection, &mut trust, 5, 40, &vec![61], &vec![1], now);
    assert!(r.is_ok());
}

#[test]
fn release_one_second_past_expiry_fails() {
    let mut escrow = test_escrow(100);
    let mut collection = test_collection();
    let mut trust = vec![None];
    let now = 1_000 + ESCROW_EXPIRY_SECONDS + 1;
    let r = release_escrow(&mut escrow, &mut collection, &mut trust, 5, 40, &vec![61], &vec![1], now);
    assert_eq!(r.unwrap_err(), ProtocolError::EscrowExpired);
    assert_eq!(escrow.amount_locked, 100);
}

#[test]
fn burn_at_expiry_boundary_fails() {
    let escrow = test_escrow(100);
    let now = 1_000 + ESCROW_EXPIRY_SECONDS;
    let r = burn_expired_escrow(&escrow, 100, now);
    assert_eq!(r.unwrap_err(), ProtocolError::EscrowNotExpired);
}

#[test]
fn burn_one_second_past_expiry_succeeds() {
    let escrow = test_escrow(100);
    let now = 1_000 + ESCROW_EXPIRY_SECONDS + 1;
    assert_eq!(burn_expired_escrow(&escrow, 100, now).unwrap(), 100);
}

#[test]
fn burn_takes_holding_dust_not_recorded_lock() {
    let mut escrow = test_escrow(100);
    let mut collection = test_collection();
    let mut trust = vec![None, None, None];
    release_escrow(
        &mut escrow,
        &mut collection,
        &mut trust,
        5,
        40,
        &vec![61, 62, 63],
        &vec![1, 1, 1],
        1_500,
    )
    .unwrap();
    assert_eq!(escrow.amount_locked, 0);
    let dust = 1;
    let now = 1_000 + ESCROW_EXPIRY_SECONDS + 1;
    assert_eq!(burn_expired_escrow(&escrow, dust, now).unwrap(), 1);
}

#[test]
fn burn_rejects_empty_holding() {
    let escrow = test_escrow(0);
    let now = 1_000 + ESCROW_EXPIRY_SECONDS + 1;
    assert_eq!(burn_expired_escrow(&escrow, 0, now).unwrap_err(), ProtocolError::InsufficientFunds);
}

#[test]
fn release_rejects_wrong_caller() {
    let mut escrow = test_escrow(100);
    let mut collection = test_collection();
    let mut trust = vec![None];
    let r = release_escrow(&mut escrow, &mut collection, &mut trust, 5, 99, &vec![61], &vec![1], 1_500);
    assert_eq!(r.unwrap_err(), ProtocolError::Unauthorized);
}

#[test]
fn release_rejects_empty_peer_list() {
    let mut escrow = test_escrow(100);
    let mut collection = test_collection();
    let mut trust = vec![];
    let r = release_escrow(&mut escrow, &mut collection, &mut trust, 5, 40, &vec![], &vec![], 1_500);
    assert_eq!(r.unwrap_err(), ProtocolError::InvalidFeeConfig);
}

#[test]
fn release_rejects_mismatched_lists() {
    let mut escrow = test_escrow(100);
    let mut collection = test_collection();
    let mut trust = vec![None];
    let r = release_escrow(&mut escrow, &mut collection, &mut trust, 5, 40, &vec![61], &vec![1, 2], 1_500);
    assert_eq!(r.unwrap_err(), ProtocolError::InvalidFeeConfig);
}

#[test]
fn release_rejects_oversized_peer_list() {
    let mut escrow = test_escrow(100);
    let mut collection = test_collection();
    let n = 17;
    let mut trust = Vec::new();
    let mut wallets = Vec::new();
    let mut weights = Vec::new();
    for i in 0..n {
        trust.push(None);
        wallets.push(100 + i);
        weights.push(1);
    }
    let r = release_escrow(&mut escrow, &mut collection, &mut trust, 5, 40, &wallets, &weights, 1_500);
    assert_eq!(r.unwrap_err(), ProtocolError::PeerListTooLong);
}

#[test]
fn release_rejects_zero_total_weight() {
    let mut escrow = test_escrow(100);
    let mut collection = test_collection();
    let mut trust = vec![None, None];
    let r = release_escrow(&mut escrow, &mut collection, &mut trust, 5, 40, &vec![61, 62], &vec![0, 0], 1_500);
    assert_eq!(r.unwrap_err(), ProtocolError::InvalidFeeConfig);
}

#[test]
fn release_rejects_weight_sum_overflow() {
    let mut escrow = test_escrow(100);
    let mut collection = test_collection();
    let mut trust = vec![None, None];
    let r = release_escrow(
        &mut escrow,
        &mut collection,
        &mut trust,
        5,
        40,
        &vec![61, 62],
        &vec![u64::MAX, 1],
        1_500,
    );
    assert_eq!(r.unwrap_err(), ProtocolError::MathOverflow);
}

#[test]
fn release_rejects_drained_escrow() {
    let mut escrow = test_escrow(0);
    let mut collection = test_collection();
    let mut trust = vec![None];
    let r = release_escrow(&mut escrow, &mut collection, &mut trust, 5, 40, &vec![61], &vec![1], 1_500);
    assert_eq!(r.unwrap_err(), ProtocolError::InsufficientFunds);
}
