//! Staking-pool flows: stake, credit, claim, unstake, the accumulator's
//! arithmetic, no over-distribution on a concrete run, and moderator
//! staking.

use settlement_core::admin::initialize_protocol;
use settlement_core::errors::ProtocolError;
use settlement_core::staking::{
    claim_staking_rewards, credit_staking_pool, slash_moderator, stake_collection_tokens,
    stake_moderator, unstake_collection_tokens,
};
use settlement_core::state::{CollectionStakingPool, GlobalState, ModeratorStake, StakerPosition};

const PRECISION: u128 = 1_000_000_000_000;

fn fresh_pool() -> CollectionStakingPool {
    CollectionStakingPool { collection: 5, total_staked: 0, reward_per_token: 0 }
}

fn fresh_position(staker: u64) -> StakerPosition {
    StakerPosition { staker, collection: 5, amount_staked: 0, reward_debt: 0 }
}

fn test_global() -> GlobalState {
    initialize_protocol(1, 2, 3, b"u".to_vec(), b"v".to_vec(), 500, 200).unwrap()
}

#[test]
fn stake_credit_claim_pays_the_credit() {
    let mut pool = fresh_pool();
    let mut pos = fresh_position(30);
    assert_eq!(stake_collection_tokens(&mut pool, &mut pos, 100).unwrap(), 0);
    assert_eq!(pool.total_staked, 100);
    credit_staking_pool(&mut pool, 50).unwrap();
    assert_eq!(pool.reward_per_token, 50 * PRECISION / 100);
    let paid = claim_staking_rewards(&pool, &mut pos).unwrap();
    assert_eq!(paid, 50);
    assert_eq!(pos.reward_debt, 100 * pool.reward_per_token);
}

#[test]
fn second_claim_without_new_credit_fails() {
    let mut pool = fresh_pool();
    let mut pos = fresh_position(30);
    stake_collection_tokens(&mut pool, &mut pos, 100).unwrap();
    credit_staking_pool(&mut pool, 50).unwrap();
    claim_staking_rewards(&pool, &mut pos).unwrap();
    let r = claim_staking_rewards(&pool, &mut pos);
    assert_eq!(r.unwrap_err(), ProtocolError::InsufficientFunds);
}

#[test]
fn credit_to_empty_pool_is_absorbed() {
    let mut pool = fresh_pool();
    credit_staking_pool(&mut pool, 1000).unwrap();
    assert_eq!(pool.reward_per_token, 0);
}

#[test]
fn accumulator_never_decreases_over_credits() {
    let mut pool = CollectionStakingPool { collection: 5, total_staked: 300, reward_per_token: 0 };
    let mut last = 0u128;
    for amount in [0u64, 17, 1, 0, 500, 2] {
        credit_staking_pool(&mut pool, amount).unwrap();
        assert!(pool.reward_per_token >= last);
        last = pool.reward_per_token;
    }
}

#[test]
fn stake_auto_claims_pending_reward() {
    let mut pool = fresh_pool();
    let mut pos = fresh_position(30);
    stake_collection_tokens(&mut pool, &mut pos, 100).unwrap();
    credit_staking_pool(&mut pool, 80).unwrap();
    let auto = stake_collection_tokens(&mut pool, &mut pos, 50).unwrap();
    assert_eq!(auto, 80);
    assert_eq!(pos.amount_staked, 150);
    assert_eq!(pos.reward_debt, 150 * pool.reward_per_token);
}

#[test]
fn unstake_returns_stake_plus_pending() {
    let mut pool = fresh_pool();
    let mut pos = fresh_position(30);
    stake_collection_tokens(&mut pool, &mut pos, 100).unwrap();
    credit_staking_pool(&mut pool, 40).unwrap();
    let total = unstake_collection_tokens(&mut pool, &mut pos, 60).unwrap();
    assert_eq!(total, 60 + 40);
    assert_eq!(pool.total_staked, 40);
    assert_eq!(pos.amount_staked, 40);
    assert_eq!(pos.reward_debt, 40 * pool.reward_per_token);
}

#[test]
fn unstake_rejects_more_than_staked() {
    let mut pool = fresh_pool();
    let mut pos = fresh_position(30);
    stake_collection_tokens(&mut pool, &mut pos, 100).unwrap();
    let r = unstake_collection_tokens(&mut pool, &mut pos, 101);
    assert_eq!(r.unwrap_err(), ProtocolError::InsufficientFunds);
}

#[test]
fn stake_rejects_zero_amount() {
    let mut pool = fresh_pool();
    let mut pos = fresh_position(30);
    let r = stake_collection_tokens(&mut pool, &mut pos, 0);
    assert_eq!(r.unwrap_err(), ProtocolError::InsufficientFunds);
}

#[test]
fn claimed_never_exceeds_credited() {
    let mut pool = fresh_pool();
    let mut alice = fresh_position(30);
    let mut bob = fresh_position(31);
    let mut credited = 0u64;
    let mut claimed = 0u64;
    claimed += stake_collection_tokens(&mut pool, &mut alice, 70).unwrap();
    credit_staking_pool(&mut pool, 33).unwrap();
    credited += 33;
    claimed += stake_collection_tokens(&mut pool, &mut bob, 130).unwrap();
    credit_staking_pool(&mut pool, 41).unwrap();
    credited += 41;
    claimed += claim_staking_rewards(&pool, &mut alice).unwrap();
    claimed += unstake_collection_tokens(&mut pool, &mut bob, 130).unwrap() - 130;
    if let Ok(more) = claim_staking_rewards(&pool, &mut alice) {
        claimed += more;
    }
    assert!(claimed <= credited);
}

#[test]
fn moderator_stake_below_minimum_rejected() {
    let global = test_global();
    let mut stake = ModeratorStake { moderator: 0, stake_amount: 0, is_active: false, slash_count: 0 };
    let r = stake_moderator(&mut stake, &global, 9, 499);
    assert_eq!(r.unwrap_err(), ProtocolError::InsufficientModeratorStake);
    assert!(!stake.is_active);
}

#[test]
fn moderator_stake_accumulates_and_activates() {
    let global = test_global();
    let mut stake = ModeratorStake { moderator: 0, stake_amount: 0, is_active: false, slash_count: 0 };
    stake_moderator(&mut stake, &global, 9, 500).unwrap();
    stake_moderator(&mut stake, &global, 9, 700).unwrap();
    assert_eq!(stake.stake_amount, 1200);
    assert!(stake.is_active);
    assert_eq!(stake.moderator, 9);
}

#[test]
fn slash_requires_admin_and_zeroes_stake() {
    let global = test_global();
    let mut stake = ModeratorStake { moderator: 9, stake_amount: 800, is_active: true, slash_count: 0 };
    assert_eq!(slash_moderator(&mut stake, &global, 9).unwrap_err(), ProtocolError::Unauthorized);
    slash_moderator(&mut stake, &global, 1).unwrap();
    assert_eq!(stake.stake_amount, 0);
    assert!(!stake.is_active);
    assert_eq!(stake.slash_count, 1);
}
