//! Purchase settlement: the fee-and-split computation, its conservation,
//! the accumulator credit, and every refusal.

use settlement_core::access::purchase_access;
use settlement_core::admin::initialize_protocol;
use settlement_core::errors::ProtocolError;
use settlement_core::state::{CollectionStakingPool, CollectionState, GlobalState};
use settlement_core::user::create_collection;

fn test_global(fee_basis_points: u16) -> GlobalState {
    initialize_protocol(1, 2, 3, b"https://indexer.example".to_vec(), b"https://registry.example".to_vec(), 1000, fee_basis_points)
        .unwrap()
}

fn test_collection(global: &GlobalState) -> CollectionState {
    create_collection(
        global, 10, b"cooking-101".to_vec(), b"Cooking".to_vec(), 777, 1000, 10, 100, 20, 21, 22,
        23, 2, 1_000_000,
    )
    .unwrap()
}

fn fresh_pool() -> CollectionStakingPool {
    CollectionStakingPool { collection: 5, total_staked: 0, reward_per_token: 0 }
}

#[test]
fn purchase_splits_thousand_at_two_percent() {
    let global = test_global(200);
    let collection = test_collection(&global);
    let mut pool = fresh_pool();
    let (escrow, split) =
        purchase_access(&mut pool, &collection, &global, 5, 40, 41, 1000, 777, 50).unwrap();
    assert_eq!(split.fee, 20);
    assert_eq!(split.to_stakers, 490);
    assert_eq!(split.to_escrow, 490);
    assert_eq!(escrow.amount_locked, 490);
    assert_eq!(escrow.purchaser, 40);
    assert_eq!(escrow.collection, 5);
    assert_eq!(escrow.created_at, 50);
    assert!(!escrow.is_cid_revealed);
}

#[test]
fn purchase_conserves_every_unit() {
    let global = test_global(137);
    let collection = test_collection(&global);
    for total in [1u64, 2, 3, 99, 100, 101, 999, 1000, 1001, 123_456_789] {
        let mut pool = fresh_pool();
        let (_, split) =
            purchase_access(&mut pool, &collection, &global, 5, 40, 41, total, 777, 50).unwrap();
        assert_eq!(split.fee + split.to_stakers + split.to_escrow, total);
    }
}

#[test]
fn purchase_dust_goes_to_stakers() {
    let global = test_global(0);
    let collection = test_collection(&global);
    let mut pool = fresh_pool();
    let (_, split) =
        purchase_access(&mut pool, &collection, &global, 5, 40, 41, 101, 777, 50).unwrap();
    assert_eq!(split.fee, 0);
    assert_eq!(split.to_stakers, 51);
    assert_eq!(split.to_escrow, 50);
}

#[test]
fn purchase_credits_staked_pool() {
    let global = test_global(200);
    let collection = test_collection(&global);
    let mut pool = CollectionStakingPool { collection: 5, total_staked: 500, reward_per_token: 7 };
    let (_, split) =
        purchase_access(&mut pool, &collection, &global, 5, 40, 41, 1000, 777, 50).unwrap();
    assert_eq!(split.to_stakers, 490);
    assert_eq!(pool.reward_per_token, 7 + 490u128 * 1_000_000_000_000 / 500);
    assert_eq!(pool.total_staked, 500);
}

#[test]
fn purchase_with_empty_pool_leaves_accumulator() {
    let global = test_global(200);
    let collection = test_collection(&global);
    let mut pool = fresh_pool();
    purchase_access(&mut pool, &collection, &global, 5, 40, 41, 1000, 777, 50).unwrap();
    assert_eq!(pool.reward_per_token, 0);
}

#[test]
fn purchase_rejects_zero_amount() {
    let global = test_global(200);
    let collection = test_collection(&global);
    let mut pool = fresh_pool();
    let r = purchase_access(&mut pool, &collection, &global, 5, 40, 41, 0, 777, 50);
    assert_eq!(r.unwrap_err(), ProtocolError::InsufficientFunds);
}

#[test]
fn purchase_rejects_blacklisted_collection() {
    let global = test_global(200);
    let mut collection = test_collection(&global);
    collection.is_blacklisted = true;
    let mut pool = fresh_pool();
    let r = purchase_access(&mut pool, &collection, &global, 5, 40, 41, 1000, 777, 50);
    assert_eq!(r.unwrap_err(), ProtocolError::Unauthorized);
}

#[test]
fn purchase_rejects_wrong_content_digest() {
    let global = test_global(200);
    let collection = test_collection(&global);
    let mut pool = fresh_pool();
    let r = purchase_access(&mut pool, &collection, &global, 5, 40, 41, 1000, 778, 50);
    assert_eq!(r.unwrap_err(), ProtocolError::Unauthorized);
}

#[test]
fn purchase_rejects_fee_overflow() {
    let global = test_global(200);
    let collection = test_collection(&global);
    let mut pool = fresh_pool();
    let r = purchase_access(&mut pool, &collection, &global, 5, 40, 41, u64::MAX, 777, 50);
    assert_eq!(r.unwrap_err(), ProtocolError::MathOverflow);
    assert_eq!(pool.reward_per_token, 0);
}

#[test]
fn full_fee_rate_takes_everything() {
    let global = test_global(10000);
    let collection = test_collection(&global);
    let mut pool = fresh_pool();
    let (_, split) =
        purchase_access(&mut pool, &collection, &global, 5, 40, 41, 1000, 777, 50).unwrap();
    assert_eq!(split.fee, 1000);
    assert_eq!(split.to_stakers, 0);
    assert_eq!(split.to_escrow, 0);
}
