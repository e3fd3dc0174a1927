//! Collection-token staking and moderator staking.
//!
//! The staking pool follows the reward-per-unit accumulator pattern: a
//! credit raises `reward_per_token` by the credited amount scaled by
//! `REWARD_PRECISION` and divided over the staked total; each position's
//! claimable reward is its stake times the accumulator, minus the debt
//! checkpoint taken at its last stake change or claim.

use vstd::prelude::*;
use crate::constants::REWARD_PRECISION;
use crate::errors::ProtocolError;
use crate::state::{CollectionStakingPool, GlobalState, ModeratorStake, StakerPosition};

verus! {

/// How much a credit of `amount` raises an accumulator that currently
/// covers `total_staked` staked units.
pub open spec fn spec_credit_increment(amount: int, total_staked: int) -> int {
    (amount * REWARD_PRECISION) / total_staked
}

/// A position's pending reward in precision-scaled units: stake times the
/// accumulator, minus the debt checkpoint.
pub open spec fn spec_pending_scaled(amount_staked: int, reward_per_token: int, reward_debt: int) -> int {
    amount_staked * reward_per_token - reward_debt
}

/// A position's pending reward in whole tokens.
pub open spec fn spec_pending_tokens(amount_staked: int, reward_per_token: int, reward_debt: int) -> int {
    spec_pending_scaled(amount_staked, reward_per_token, reward_debt) / (REWARD_PRECISION as int)
}

/// Credits `amount` to the pool's accumulator, dividing it over the staked
/// total.  A pool with nothing staked is left untouched: the credited
/// tokens then sit unattributed in the pool holding, a known gap of the
/// accumulator pattern.  The accumulator never decreases.
pub fn credit_staking_pool(pool: &mut CollectionStakingPool, amount: u64) -> (r: Result<
    (),
    ProtocolError,
>)
    ensures
        r is Err <==> old(pool).total_staked > 0 && old(pool).reward_per_token
            + spec_credit_increment(amount as int, old(pool).total_staked as int) > u128::MAX,
        r is Err ==> *final(pool) == *old(pool) && r == Err::<(), ProtocolError>(
            ProtocolError::MathOverflow,
        ),
        r is Ok ==> ({
            &&& final(pool).collection == old(pool).collection
            &&& final(pool).total_staked == old(pool).total_staked
            &&& final(pool).reward_per_token == if old(pool).total_staked > 0 {
                old(pool).reward_per_token + spec_credit_increment(
                    amount as int,
                    old(pool).total_staked as int,
                )
            } else {
                old(pool).reward_per_token as int
            }
        }),
        r is Ok ==> final(pool).reward_per_token >= old(pool).reward_per_token,
{
    if pool.total_staked > 0 {
        proof {
            crate::math::lemma_proportional_share_le(
                REWARD_PRECISION as int,
                amount as int,
                u64::MAX as int,
            );
            crate::math::lemma_div_mul_le(
                (amount as int) * (REWARD_PRECISION as int),
                pool.total_staked as int,
            );
            assert((amount as int) * (REWARD_PRECISION as int) <= (u64::MAX as int) * (
            REWARD_PRECISION as int)) by (nonlinear_arith)
                requires
                    amount <= u64::MAX,
            ;
            vstd::arithmetic::div_mod::lemma_div_is_ordered_by_denominator(
                (amount as int) * (REWARD_PRECISION as int),
                1,
                pool.total_staked as int,
            );
        }
        let increment = ((amount as u128) * REWARD_PRECISION) / (pool.total_staked as u128);
        let new_acc = match pool.reward_per_token.checked_add(increment) {
            Some(v) => v,
            None => {
                return Err(ProtocolError::MathOverflow);
            },
        };
        pool.reward_per_token = new_acc;
    }
    Ok(())
}

/// The first reason a stake is refused, or `None`: a zero amount, then the
/// checked arithmetic of the auto-claim and of the three updated fields.
pub open spec fn stake_error(
    pool: CollectionStakingPool,
    position: StakerPosition,
    amount: u64,
) -> Option<ProtocolError> {
    let staked = position.amount_staked as int;
    let acc = pool.reward_per_token as int;
    let debt = position.reward_debt as int;
    if amount == 0 {
        Some(ProtocolError::InsufficientFunds)
    } else if position.amount_staked > 0 && staked * acc > u128::MAX {
        Some(ProtocolError::MathOverflow)
    } else if position.amount_staked > 0 && staked * acc - debt < 0 {
        Some(ProtocolError::MathOverflow)
    } else if position.amount_staked > 0 && spec_pending_tokens(staked, acc, debt) > u64::MAX {
        Some(ProtocolError::MathOverflow)
    } else if pool.total_staked + amount > u64::MAX {
        Some(ProtocolError::MathOverflow)
    } else if position.amount_staked + amount > u64::MAX {
        Some(ProtocolError::MathOverflow)
    } else if (staked + amount) * acc > u128::MAX {
        Some(ProtocolError::MathOverflow)
    } else {
        None
    }
}

/// Stakes `amount` collection tokens into the pool.  Any reward pending on
/// the position is claimed first, atomically, and returned so the host
/// pays it out together with taking the staked tokens in — otherwise the
/// debt reset would silently discard it.  The position's debt checkpoint
/// is reset against the grown stake.
pub fn stake_collection_tokens(
    pool: &mut CollectionStakingPool,
    position: &mut StakerPosition,
    amount: u64,
) -> (r: Result<u64, ProtocolError>)
    ensures
        r is Err <==> stake_error(*old(pool), *old(position), amount) is Some,
        r is Err ==> *final(pool) == *old(pool) && *final(position) == *old(position) && r
            == Err::<u64, ProtocolError>(stake_error(*old(pool), *old(position), amount).unwrap()),
        r matches Ok(auto_claimed) ==> ({
            let staked = old(position).amount_staked as int;
            let acc = old(pool).reward_per_token as int;
            let debt = old(position).reward_debt as int;
            &&& auto_claimed == if old(position).amount_staked > 0 {
                spec_pending_tokens(staked, acc, debt)
            } else {
                0
            }
            &&& *final(pool) == (CollectionStakingPool {
                total_staked: (old(pool).total_staked + amount) as u64,
                ..*old(pool)
            })
            &&& *final(position) == (StakerPosition {
                amount_staked: (old(position).amount_staked + amount) as u64,
                reward_debt: ((staked + amount) * acc) as u128,
                ..*old(position)
            })
        }),
{
    if amount == 0 {
        return Err(ProtocolError::InsufficientFunds);
    }

    let mut auto_claimed: u64 = 0;
    if position.amount_staked > 0 {
        let accumulated = match (position.amount_staked as u128).checked_mul(
            pool.reward_per_token,
        ) {
            Some(v) => v,
            None => {
                return Err(ProtocolError::MathOverflow);
            },
        };
        let pending = match accumulated.checked_sub(position.reward_debt) {
            Some(v) => v,
            None => {
                return Err(ProtocolError::MathOverflow);
            },
        };
        let pending_tokens = pending / REWARD_PRECISION;
        if pending_tokens > u64::MAX as u128 {
            return Err(ProtocolError::MathOverflow);
        }
        auto_claimed = pending_tokens as u64;
    }

    let new_total = match pool.total_staked.checked_add(amount) {
        Some(v) => v,
        None => {
            return Err(ProtocolError::MathOverflow);
        },
    };
    let new_staked = match position.amount_staked.checked_add(amount) {
        Some(v) => v,
        None => {
            return Err(ProtocolError::MathOverflow);
        },
    };
    let new_debt = match (new_staked as u128).checked_mul(pool.reward_per_token) {
        Some(v) => v,
        None => {
            return Err(ProtocolError::MathOverflow);
        },
    };
    pool.total_staked = new_total;
    position.amount_staked = new_staked;
    position.reward_debt = new_debt;
    Ok(auto_claimed)
}

/// The first reason a claim is refused, or `None`: an empty position, the
/// checked pending-reward arithmetic, and a pending reward that rounds
/// down to zero whole tokens.
pub open spec fn claim_error(pool: CollectionStakingPool, position: StakerPosition) -> Option<
    ProtocolError,
> {
    let staked = position.amount_staked as int;
    let acc = pool.reward_per_token as int;
    let debt = position.reward_debt as int;
    if position.amount_staked == 0 {
        Some(ProtocolError::InsufficientFunds)
    } else if staked * acc > u128::MAX {
        Some(ProtocolError::MathOverflow)
    } else if staked * acc - debt < 0 {
        Some(ProtocolError::MathOverflow)
    } else if spec_pending_tokens(staked, acc, debt) > u64::MAX {
        Some(ProtocolError::MathOverflow)
    } else if spec_pending_tokens(staked, acc, debt) == 0 {
        Some(ProtocolError::InsufficientFunds)
    } else {
        None
    }
}

/// Claims the position's pending reward: the returned whole-token amount
/// is what the host transfers from the pool holding to the staker.  The
/// debt checkpoint is reset to the current accumulator level, so claiming
/// again without new credits yields nothing.
pub fn claim_staking_rewards(pool: &CollectionStakingPool, position: &mut StakerPosition) -> (r:
    Result<u64, ProtocolError>)
    ensures
        r is Err <==> claim_error(*pool, *old(position)) is Some,
        r is Err ==> *final(position) == *old(position) && r == Err::<u64, ProtocolError>(
            claim_error(*pool, *old(position)).unwrap(),
        ),
        r matches Ok(paid) ==> ({
            let staked = old(position).amount_staked as int;
            let acc = pool.reward_per_token as int;
            let debt = old(position).reward_debt as int;
            &&& paid == spec_pending_tokens(staked, acc, debt)
            &&& paid > 0
            &&& *final(position) == (StakerPosition {
                reward_debt: (staked * acc) as u128,
                ..*old(position)
            })
        }),
{
    if position.amount_staked == 0 {
        return Err(ProtocolError::InsufficientFunds);
    }
    let accumulated = match (position.amount_staked as u128).checked_mul(pool.reward_per_token) {
        Some(v) => v,
        None => {
            return Err(ProtocolError::MathOverflow);
        },
    };
    let pending = match accumulated.checked_sub(position.reward_debt) {
        Some(v) => v,
        None => {
            return Err(ProtocolError::MathOverflow);
        },
    };
    let pending_tokens = pending / REWARD_PRECISION;
    if pending_tokens > u64::MAX as u128 {
        return Err(ProtocolError::MathOverflow);
    }
    if pending_tokens == 0 {
        return Err(ProtocolError::InsufficientFunds);
    }
    position.reward_debt = accumulated;
    Ok(pending_tokens as u64)
}

/// The first reason an unstake is refused, or `None`: a zero or oversized
/// amount, the checked pending-reward arithmetic, the combined payout, and
/// a pool total smaller than the position claims to hold.
pub open spec fn unstake_error(
    pool: CollectionStakingPool,
    position: StakerPosition,
    amount: u64,
) -> Option<ProtocolError> {
    let staked = position.amount_staked as int;
    let acc = pool.reward_per_token as int;
    let debt = position.reward_debt as int;
    if amount == 0 {
        Some(ProtocolError::InsufficientFunds)
    } else if position.amount_staked < amount {
        Some(ProtocolError::InsufficientFunds)
    } else if staked * acc > u128::MAX {
        Some(ProtocolError::MathOverflow)
    } else if staked * acc - debt < 0 {
        Some(ProtocolError::MathOverflow)
    } else if spec_pending_tokens(staked, acc, debt) > u64::MAX {
        Some(ProtocolError::MathOverflow)
    } else if amount + spec_pending_tokens(staked, acc, debt) > u64::MAX {
        Some(ProtocolError::MathOverflow)
    } else if pool.total_staked < amount {
        Some(ProtocolError::MathOverflow)
    } else {
        None
    }
}

/// Unstakes `amount` tokens and claims the pending reward in the same
/// operation: the returned total — stake plus reward — is what the host
/// transfers from the pool holding back to the staker.  Pool and position
/// shrink by the amount, and the debt checkpoint is reset against the
/// remaining stake.
pub fn unstake_collection_tokens(
    pool: &mut CollectionStakingPool,
    position: &mut StakerPosition,
    amount: u64,
) -> (r: Result<u64, ProtocolError>)
    ensures
        r is Err <==> unstake_error(*old(pool), *old(position), amount) is Some,
        r is Err ==> *final(pool) == *old(pool) && *final(position) == *old(position) && r
            == Err::<u64, ProtocolError>(
            unstake_error(*old(pool), *old(position), amount).unwrap(),
        ),
        r matches Ok(total_transfer) ==> ({
            let staked = old(position).amount_staked as int;
            let acc = old(pool).reward_per_token as int;
            let debt = old(position).reward_debt as int;
            &&& total_transfer == amount + spec_pending_tokens(staked, acc, debt)
            &&& *final(pool) == (CollectionStakingPool {
                total_staked: (old(pool).total_staked - amount) as u64,
                ..*old(pool)
            })
            &&& *final(position) == (StakerPosition {
                amount_staked: (staked - amount) as u64,
                reward_debt: ((staked - amount) * acc) as u128,
                ..*old(position)
            })
        }),
{
    if amount == 0 {
        return Err(ProtocolError::InsufficientFunds);
    }
    if position.amount_staked < amount {
        return Err(ProtocolError::InsufficientFunds);
    }
    let accumulated = match (position.amount_staked as u128).checked_mul(pool.reward_per_token) {
        Some(v) => v,
        None => {
            return Err(ProtocolError::MathOverflow);
        },
    };
    let pending = match accumulated.checked_sub(position.reward_debt) {
        Some(v) => v,
        None => {
            return Err(ProtocolError::MathOverflow);
        },
    };
    let pending_tokens_wide = pending / REWARD_PRECISION;
    if pending_tokens_wide > u64::MAX as u128 {
        return Err(ProtocolError::MathOverflow);
    }
    let pending_tokens = pending_tokens_wide as u64;
    let total_transfer = match amount.checked_add(pending_tokens) {
        Some(v) => v,
        None => {
            return Err(ProtocolError::MathOverflow);
        },
    };
    let new_total = match pool.total_staked.checked_sub(amount) {
        Some(v) => v,
        None => {
            return Err(ProtocolError::MathOverflow);
        },
    };
    let remaining = position.amount_staked - amount;
    proof {
        assert((remaining as int) * (pool.reward_per_token as int) <= (
        position.amount_staked as int) * (pool.reward_per_token as int)) by (nonlinear_arith)
            requires
                0 <= remaining <= position.amount_staked,
                pool.reward_per_token >= 0,
        ;
        assert((remaining as int) * (pool.reward_per_token as int) >= 0) by (nonlinear_arith)
            requires
                remaining >= 0,
                pool.reward_per_token >= 0,
        ;
    }
    let new_debt = (remaining as u128) * pool.reward_per_token;
    pool.total_staked = new_total;
    position.amount_staked = remaining;
    position.reward_debt = new_debt;
    Ok(total_transfer)
}

/// Adds to a moderator's ecosystem-token stake and activates it.  The
/// staked amount must meet the protocol's minimum; the host transfers the
/// tokens into the staking vault on success.
pub fn stake_moderator(
    moderator_stake: &mut ModeratorStake,
    global: &GlobalState,
    moderator: u64,
    stake_amount: u64,
) -> (r: Result<(), ProtocolError>)
    ensures
        r is Err <==> stake_amount < global.moderator_stake_minimum || old(
            moderator_stake,
        ).stake_amount + stake_amount > u64::MAX,
        r is Err ==> *final(moderator_stake) == *old(moderator_stake),
        r is Err ==> r == Err::<(), ProtocolError>(
            if stake_amount < global.moderator_stake_minimum {
                ProtocolError::InsufficientModeratorStake
            } else {
                ProtocolError::MathOverflow
            },
        ),
        r is Ok ==> *final(moderator_stake) == (ModeratorStake {
            moderator,
            stake_amount: (old(moderator_stake).stake_amount + stake_amount) as u64,
            is_active: true,
            slash_count: old(moderator_stake).slash_count,
        }),
{
    if stake_amount < global.moderator_stake_minimum {
        return Err(ProtocolError::InsufficientModeratorStake);
    }
    let new_amount = match moderator_stake.stake_amount.checked_add(stake_amount) {
        Some(v) => v,
        None => {
            return Err(ProtocolError::MathOverflow);
        },
    };
    moderator_stake.moderator = moderator;
    moderator_stake.stake_amount = new_amount;
    moderator_stake.is_active = true;
    Ok(())
}

/// Slashes a moderator: only the protocol admin may do it; the stake is
/// zeroed, the record deactivated, and the slash counter stepped.  The
/// host burns or redirects the forfeited tokens.
pub fn slash_moderator(
    moderator_stake: &mut ModeratorStake,
    global: &GlobalState,
    caller: u64,
) -> (r: Result<(), ProtocolError>)
    ensures
        r is Err <==> caller != global.admin || old(moderator_stake).slash_count + 1 > u32::MAX,
        r is Err ==> *final(moderator_stake) == *old(moderator_stake),
        r is Err ==> r == Err::<(), ProtocolError>(
            if caller != global.admin {
                ProtocolError::Unauthorized
            } else {
                ProtocolError::MathOverflow
            },
        ),
        r is Ok ==> *final(moderator_stake) == (ModeratorStake {
            moderator: old(moderator_stake).moderator,
            stake_amount: 0,
            is_active: false,
            slash_count: (old(moderator_stake).slash_count + 1) as u32,
        }),
{
    if caller != global.admin {
        return Err(ProtocolError::Unauthorized);
    }
    let new_count = match moderator_stake.slash_count.checked_add(1) {
        Some(v) => v,
        None => {
            return Err(ProtocolError::MathOverflow);
        },
    };
    moderator_stake.stake_amount = 0;
    moderator_stake.is_active = false;
    moderator_stake.slash_count = new_count;
    Ok(())
}

} // verus!
