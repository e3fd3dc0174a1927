//! Fee harvesting and the pinner reward ledger: the 50/20/20/10 split
//! with its remainder, authority checks, and share-based claims.

use settlement_core::admin::initialize_protocol;
use settlement_core::errors::ProtocolError;
use settlement_core::pinner::{claim_rewards, register_collection_host};
use settlement_core::state::{CollectionState, GlobalState, PerformerEscrow};
use settlement_core::treasury::harvest_fees;
use settlement_core::user::create_collection;

const PRECISION: u128 = 1_000_000_000_000;

fn test_global() -> GlobalState {
    initialize_protocol(1, 2, 3, b"u".to_vec(), b"v".to_vec(), 500, 200).unwrap()
}

fn test_collection(global: &GlobalState) -> CollectionState {
    create_collection(
        global, 10, b"cooking-101".to_vec(), b"Cooking".to_vec(), 777, 1000, 10, 100, 20, 21, 22,
        23, 2, 1_000_000,
    )
    .unwrap()
}

fn fresh_performer_escrow() -> PerformerEscrow {
    PerformerEscrow { collection: 5, performer_wallet: 70, balance: 0 }
}

#[test]
fn harvest_splits_round_thousand() {
    let global = test_global();
    let mut collection = test_collection(&global);
    let mut escrow = fresh_performer_escrow();
    let split = harvest_fees(&mut collection, &mut escrow, &global, 10, 1000).unwrap();
    assert_eq!(split.to_pinners, 500);
    assert_eq!(split.to_owner, 200);
    assert_eq!(split.to_performer, 200);
    assert_eq!(split.to_stakers, 100);
    assert_eq!(collection.reward_pool_balance, 500);
    assert_eq!(collection.owner_reward_balance, 200);
    assert_eq!(collection.staker_reward_balance, 100);
    assert_eq!(escrow.balance, 200);
}

#[test]
fn harvest_remainder_goes_to_pinners() {
    let global = test_global();
    let mut collection = test_collection(&global);
    let mut escrow = fresh_performer_escrow();
    let split = harvest_fees(&mut collection, &mut escrow, &global, 10, 999).unwrap();
    assert_eq!(split.to_owner, 199);
    assert_eq!(split.to_performer, 199);
    assert_eq!(split.to_stakers, 99);
    assert_eq!(split.to_pinners, 999 - 199 - 199 - 99);
    assert_eq!(split.to_pinners + split.to_owner + split.to_performer + split.to_stakers, 999);
}

#[test]
fn harvest_conserves_many_amounts() {
    let global = test_global();
    for h in [1u64, 2, 3, 9, 10, 97, 1001, 123_456_789] {
        let mut collection = test_collection(&global);
        let mut escrow = fresh_performer_escrow();
        let split = harvest_fees(&mut collection, &mut escrow, &global, 10, h).unwrap();
        assert_eq!(split.to_pinners + split.to_owner + split.to_performer + split.to_stakers, h);
    }
}

#[test]
fn harvest_allows_owner_and_admin_only() {
    let global = test_global();
    let mut collection = test_collection(&global);
    let mut escrow = fresh_performer_escrow();
    let r = harvest_fees(&mut collection, &mut escrow, &global, 99, 1000);
    assert_eq!(r.unwrap_err(), ProtocolError::Unauthorized);
    assert!(harvest_fees(&mut collection, &mut escrow, &global, 1, 1000).is_ok());
}

#[test]
fn harvest_rejects_empty_vault() {
    let global = test_global();
    let mut collection = test_collection(&global);
    let mut escrow = fresh_performer_escrow();
    let r = harvest_fees(&mut collection, &mut escrow, &global, 10, 0);
    assert_eq!(r.unwrap_err(), ProtocolError::InsufficientFunds);
}

#[test]
fn harvest_credits_pinner_accumulator() {
    let global = test_global();
    let mut collection = test_collection(&global);
    let mut escrow = fresh_performer_escrow();
    let host = register_collection_host(&mut collection, 5, 60).unwrap();
    assert_eq!(host.shares, 1);
    assert_eq!(collection.total_shares, 1);
    harvest_fees(&mut collection, &mut escrow, &global, 10, 1000).unwrap();
    assert_eq!(collection.acc_reward_per_share, 500 * PRECISION / 1);
}

#[test]
fn pinner_claims_its_share_once() {
    let global = test_global();
    let mut collection = test_collection(&global);
    let mut escrow = fresh_performer_escrow();
    let mut host = register_collection_host(&mut collection, 5, 60).unwrap();
    harvest_fees(&mut collection, &mut escrow, &global, 10, 1000).unwrap();
    let paid = claim_rewards(&mut collection, &mut host, 500).unwrap();
    assert_eq!(paid, 500);
    assert_eq!(collection.reward_pool_balance, 0);
    let again = claim_rewards(&mut collection, &mut host, 500);
    assert_eq!(again.unwrap_err(), ProtocolError::InsufficientFunds);
}

#[test]
fn late_pinner_earns_nothing_from_past_harvests() {
    let global = test_global();
    let mut collection = test_collection(&global);
    let mut escrow = fresh_performer_escrow();
    let mut early = register_collection_host(&mut collection, 5, 60).unwrap();
    harvest_fees(&mut collection, &mut escrow, &global, 10, 1000).unwrap();
    let mut late = register_collection_host(&mut collection, 5, 61).unwrap();
    let r = claim_rewards(&mut collection, &mut late, 500);
    assert_eq!(r.unwrap_err(), ProtocolError::InsufficientFunds);
    assert_eq!(claim_rewards(&mut collection, &mut early, 500).unwrap(), 500);
}

#[test]
fn pinner_claim_needs_funded_vault() {
    let global = test_global();
    let mut collection = test_collection(&global);
    let mut escrow = fresh_performer_escrow();
    let mut host = register_collection_host(&mut collection, 5, 60).unwrap();
    harvest_fees(&mut collection, &mut escrow, &global, 10, 1000).unwrap();
    let r = claim_rewards(&mut collection, &mut host, 499);
    assert_eq!(r.unwrap_err(), ProtocolError::InsufficientFunds);
}

#[test]
fn inactive_pinner_cannot_claim() {
    let global = test_global();
    let mut collection = test_collection(&global);
    let mut escrow = fresh_performer_escrow();
    let mut host = register_collection_host(&mut collection, 5, 60).unwrap();
    harvest_fees(&mut collection, &mut escrow, &global, 10, 1000).unwrap();
    host.is_active = false;
    assert_eq!(claim_rewards(&mut collection, &mut host, 500).unwrap_err(), ProtocolError::Unauthorized);
}
