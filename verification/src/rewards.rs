//! No over-distribution: a staking pool can never pay out more reward
//! than was ever credited to it.
//!
//! The model below replays any sequence of successful pool operations —
//! credits, stakes, claims, unstakes — exactly as the contracts of
//! `credit_staking_pool`, `stake_collection_tokens`,
//! `claim_staking_rewards` and `unstake_collection_tokens` describe them
//! (an operation those contracts refuse changes nothing, so it is simply
//! absent from the sequence), while keeping book of everything credited
//! and everything paid out.  The proved invariant bounds the paid-out
//! total plus all still-pending rewards by the credited total, scaled by
//! the accumulator precision; the public law at the end is the corollary
//! that the paid-out total never exceeds the credited total.

use vstd::prelude::*;
use crate::constants::REWARD_PRECISION;
use crate::math::lemma_div_mul_le;
use crate::staking::{claim_error, spec_credit_increment, spec_pending_tokens, stake_error, unstake_error};
use crate::state::{CollectionStakingPool, StakerPosition};

verus! {

/// One staking pool with all its positions and the running totals of
/// everything ever credited to it and ever paid out of it.
pub struct PoolSystem {
    /// The pool record.
    pub pool: CollectionStakingPool,
    /// Every staker position of the pool.
    pub positions: Seq<StakerPosition>,
    /// Sum of all amounts ever credited to the accumulator.
    pub credited: int,
    /// Sum of all reward tokens ever paid out (by claims and by the
    /// auto-claims inside stake and unstake).
    pub claimed: int,
}

/// One successful pool operation.
pub enum PoolEvent {
    /// A purchase (or any other source) credits reward value to the pool.
    Credit {
        /// The credited amount.
        amount: u64,
    },
    /// A staker adds to its position, auto-claiming its pending reward.
    Stake {
        /// Index of the position in the system.
        position: int,
        /// The staked amount.
        amount: u64,
    },
    /// A staker claims its pending reward.
    Claim {
        /// Index of the position in the system.
        position: int,
    },
    /// A staker withdraws part of its position, claiming its pending
    /// reward in the same operation.
    Unstake {
        /// Index of the position in the system.
        position: int,
        /// The withdrawn amount.
        amount: u64,
    },
}

/// A position's pending reward in precision-scaled units.
pub open spec fn spec_position_pending(p: StakerPosition, acc: int) -> int {
    p.amount_staked * acc - p.reward_debt
}

/// The summed pending reward of all positions, in scaled units.
pub open spec fn spec_pending_sum(ps: Seq<StakerPosition>, acc: int) -> int
    decreases ps.len(),
{
    if ps.len() == 0 {
        0
    } else {
        spec_pending_sum(ps.drop_last(), acc) + spec_position_pending(ps.last(), acc)
    }
}

/// The summed stake of all positions.
pub open spec fn spec_total_stakes(ps: Seq<StakerPosition>) -> int
    decreases ps.len(),
{
    if ps.len() == 0 {
        0
    } else {
        spec_total_stakes(ps.drop_last()) + ps.last().amount_staked
    }
}

/// The system invariant: the pool's recorded total is the sum of the
/// positions, no debt checkpoint runs ahead of its position's accumulated
/// value, and — the heart of the argument — everything paid out plus
/// everything still pending never exceeds everything credited.
pub open spec fn sys_inv(s: PoolSystem) -> bool {
    let acc = s.pool.reward_per_token as int;
    &&& s.pool.total_staked as int == spec_total_stakes(s.positions)
    &&& forall|k: int|
        0 <= k < s.positions.len() ==> (#[trigger] s.positions[k]).reward_debt
            <= s.positions[k].amount_staked * acc
    &&& s.credited >= 0
    &&& s.claimed >= 0
    &&& (REWARD_PRECISION as int) * s.claimed + spec_pending_sum(s.positions, acc) <= (
    REWARD_PRECISION as int) * s.credited
}

/// Whether an event can actually happen in a state: exactly the success
/// conditions of the corresponding verified operation.
pub open spec fn spec_event_enabled(s: PoolSystem, ev: PoolEvent) -> bool {
    match ev {
        PoolEvent::Credit { amount } => s.pool.total_staked > 0 ==> s.pool.reward_per_token
            + spec_credit_increment(amount as int, s.pool.total_staked as int) <= u128::MAX,
        PoolEvent::Stake { position, amount } => 0 <= position < s.positions.len() && stake_error(
            s.pool,
            s.positions[position],
            amount,
        ) is None,
        PoolEvent::Claim { position } => 0 <= position < s.positions.len() && claim_error(
            s.pool,
            s.positions[position],
        ) is None,
        PoolEvent::Unstake { position, amount } => 0 <= position < s.positions.len()
            && unstake_error(s.pool, s.positions[position], amount) is None,
    }
}

/// The state after one event, exactly as the operation contracts describe
/// it; an event that is not enabled changes nothing, as the refused
/// operation would not either.
pub open spec fn spec_apply_event(s: PoolSystem, ev: PoolEvent) -> PoolSystem {
    if !spec_event_enabled(s, ev) {
        s
    } else {
        let acc = s.pool.reward_per_token as int;
        match ev {
            PoolEvent::Credit { amount } => PoolSystem {
                pool: CollectionStakingPool {
                    reward_per_token: if s.pool.total_staked > 0 {
                        (acc + spec_credit_increment(
                            amount as int,
                            s.pool.total_staked as int,
                        )) as u128
                    } else {
                        s.pool.reward_per_token
                    },
                    ..s.pool
                },
                credited: s.credited + amount,
                ..s
            },
            PoolEvent::Stake { position, amount } => {
                let p = s.positions[position];
                let paid = if p.amount_staked > 0 {
                    spec_pending_tokens(p.amount_staked as int, acc, p.reward_debt as int)
                } else {
                    0
                };
                PoolSystem {
                    pool: CollectionStakingPool {
                        total_staked: (s.pool.total_staked + amount) as u64,
                        ..s.pool
                    },
                    positions: s.positions.update(
                        position,
                        StakerPosition {
                            amount_staked: (p.amount_staked + amount) as u64,
                            reward_debt: ((p.amount_staked + amount) * acc) as u128,
                            ..p
                        },
                    ),
                    claimed: s.claimed + paid,
                    ..s
                }
            },
            PoolEvent::Claim { position } => {
                let p = s.positions[position];
                let paid = spec_pending_tokens(p.amount_staked as int, acc, p.reward_debt as int);
                PoolSystem {
                    positions: s.positions.update(
                        position,
                        StakerPosition { reward_debt: (p.amount_staked * acc) as u128, ..p },
                    ),
                    claimed: s.claimed + paid,
                    ..s
                }
            },
            PoolEvent::Unstake { position, amount } => {
                let p = s.positions[position];
                let paid = spec_pending_tokens(p.amount_staked as int, acc, p.reward_debt as int);
                PoolSystem {
                    pool: CollectionStakingPool {
                        total_staked: (s.pool.total_staked - amount) as u64,
                        ..s.pool
                    },
                    positions: s.positions.update(
                        position,
                        StakerPosition {
                            amount_staked: (p.amount_staked - amount) as u64,
                            reward_debt: ((p.amount_staked - amount) * acc) as u128,
                            ..p
                        },
                    ),
                    claimed: s.claimed + paid,
                    ..s
                }
            },
        }
    }
}

/// The state after a whole sequence of events.
pub open spec fn spec_apply_events(s: PoolSystem, evs: Seq<PoolEvent>) -> PoolSystem
    decreases evs.len(),
{
    if evs.len() == 0 {
        s
    } else {
        spec_apply_events(spec_apply_event(s, evs[0]), evs.drop_first())
    }
}

/// Replacing one position changes the pending sum by the difference of
/// the two pendings.
proof fn lemma_pending_sum_update(ps: Seq<StakerPosition>, acc: int, k: int, p: StakerPosition)
    requires
        0 <= k < ps.len(),
    ensures
        spec_pending_sum(ps.update(k, p), acc) == spec_pending_sum(ps, acc)
            - spec_position_pending(ps[k], acc) + spec_position_pending(p, acc),
    decreases ps.len(),
{
    let upd = ps.update(k, p);
    if k == ps.len() - 1 {
        assert(upd.drop_last() =~= ps.drop_last());
        assert(upd.last() == p);
    } else {
        assert(upd.drop_last() =~= ps.drop_last().update(k, p));
        assert(upd.last() == ps.last());
        lemma_pending_sum_update(ps.drop_last(), acc, k, p);
    }
}

/// Replacing one position changes the total stake by the difference of
/// the two stakes.
proof fn lemma_total_stakes_update(ps: Seq<StakerPosition>, k: int, p: StakerPosition)
    requires
        0 <= k < ps.len(),
    ensures
        spec_total_stakes(ps.update(k, p)) == spec_total_stakes(ps) - ps[k].amount_staked
            + p.amount_staked,
    decreases ps.len(),
{
    let upd = ps.update(k, p);
    if k == ps.len() - 1 {
        assert(upd.drop_last() =~= ps.drop_last());
    } else {
        assert(upd.drop_last() =~= ps.drop_last().update(k, p));
        assert(upd.last() == ps.last());
        lemma_total_stakes_update(ps.drop_last(), k, p);
    }
}

/// Raising the accumulator by `d` raises the pending sum by `d` per
/// staked unit.
proof fn lemma_pending_sum_shift(ps: Seq<StakerPosition>, acc: int, d: int)
    ensures
        spec_pending_sum(ps, acc + d) == spec_pending_sum(ps, acc) + d * spec_total_stakes(ps),
    decreases ps.len(),
{
    if ps.len() == 0 {
        assert(d * 0 == 0) by (nonlinear_arith);
    } else {
        lemma_pending_sum_shift(ps.drop_last(), acc, d);
        let p = ps.last();
        let st = p.amount_staked as int;
        assert(st * (acc + d) == st * acc + st * d) by (nonlinear_arith);
        assert(d * (spec_total_stakes(ps.drop_last()) + st) == d * spec_total_stakes(
            ps.drop_last(),
        ) + d * st) by (nonlinear_arith);
        assert(st * d == d * st) by (nonlinear_arith);
    }
}

/// With every debt at or below its position's accumulated value, no
/// pending reward is negative, so neither is their sum.
proof fn lemma_pending_sum_nonneg(ps: Seq<StakerPosition>, acc: int)
    requires
        forall|k: int|
            0 <= k < ps.len() ==> (#[trigger] ps[k]).reward_debt <= ps[k].amount_staked * acc,
    ensures
        spec_pending_sum(ps, acc) >= 0,
    decreases ps.len(),
{
    if ps.len() > 0 {
        assert(ps.drop_last() =~= ps.take(ps.len() - 1));
        assert(forall|k: int|
            0 <= k < ps.drop_last().len() ==> #[trigger] ps.drop_last()[k] == ps[k]);
        lemma_pending_sum_nonneg(ps.drop_last(), acc);
        assert(ps.last() == ps[ps.len() - 1]);
    }
}

/// One enabled event keeps the invariant; the claimed and credited totals
/// never shrink.
proof fn lemma_event_preserves_inv(s: PoolSystem, ev: PoolEvent)
    requires
        sys_inv(s),
    ensures
        sys_inv(spec_apply_event(s, ev)),
        spec_apply_event(s, ev).claimed >= s.claimed,
        spec_apply_event(s, ev).credited >= s.credited,
    decreases 0int,
{
    let precision = REWARD_PRECISION as int;
    if spec_event_enabled(s, ev) {
        let acc = s.pool.reward_per_token as int;
        match ev {
            PoolEvent::Credit { amount } => {
                if s.pool.total_staked > 0 {
                    let t = s.pool.total_staked as int;
                    let d = spec_credit_increment(amount as int, t);
                    assert((amount as int) * precision >= 0) by (nonlinear_arith)
                        requires
                            amount >= 0,
                            precision > 0,
                    ;
                    lemma_div_mul_le((amount as int) * precision, t);
                    lemma_pending_sum_shift(s.positions, acc, d);
                    assert(d * t <= (amount as int) * precision) by {
                        assert(t * d <= (amount as int) * precision);
                        assert(d * t == t * d) by (nonlinear_arith);
                    }
                    assert(forall|k: int|
                        0 <= k < s.positions.len() ==> (#[trigger] s.positions[k]).reward_debt
                            <= s.positions[k].amount_staked * (acc + d)) by {
                        assert forall|k: int| 0 <= k < s.positions.len() implies (
                        #[trigger] s.positions[k]).reward_debt <= s.positions[k].amount_staked * (
                        acc + d) by {
                            let st = s.positions[k].amount_staked as int;
                            assert(st * (acc + d) >= st * acc) by (nonlinear_arith)
                                requires
                                    st >= 0,
                                    d >= 0,
                            ;
                        }
                    }
                } else {
                    assert(precision * (s.credited + amount) >= precision * s.credited + 0)
                        by (nonlinear_arith)
                        requires
                            amount >= 0,
                            precision > 0,
                    ;
                    assert(precision * (s.credited + amount) == precision * s.credited + precision
                        * (amount as int)) by (nonlinear_arith);
                    assert(precision * (amount as int) >= 0) by (nonlinear_arith)
                        requires
                            amount >= 0,
                            precision > 0,
                    ;
                }
                assert(precision * (s.credited + amount) == precision * s.credited + precision * (
                amount as int)) by (nonlinear_arith);
                assert(precision * (amount as int) >= (amount as int) * precision)
                    by (nonlinear_arith);
            },
            PoolEvent::Stake { position, amount } => {
                let p = s.positions[position];
                let pend = spec_position_pending(p, acc);
                let paid = if p.amount_staked > 0 {
                    spec_pending_tokens(p.amount_staked as int, acc, p.reward_debt as int)
                } else {
                    0
                };
                let p2 = StakerPosition {
                    amount_staked: (p.amount_staked + amount) as u64,
                    reward_debt: ((p.amount_staked + amount) * acc) as u128,
                    ..p
                };
                if p.amount_staked > 0 {
                    lemma_div_mul_le(pend, precision);
                    assert(precision * paid <= pend);
                } else {
                    assert(p.reward_debt <= p.amount_staked * acc);
                    assert(p.amount_staked * acc == 0) by (nonlinear_arith)
                        requires
                            p.amount_staked == 0,
                    ;
                    assert(pend == 0);
                }
                lemma_pending_sum_update(s.positions, acc, position, p2);
                lemma_total_stakes_update(s.positions, position, p2);
                assert(spec_position_pending(p2, acc) == 0);
                assert(precision * (s.claimed + paid) == precision * s.claimed + precision * paid)
                    by (nonlinear_arith);
            },
            PoolEvent::Claim { position } => {
                let p = s.positions[position];
                let pend = spec_position_pending(p, acc);
                let paid = spec_pending_tokens(p.amount_staked as int, acc, p.reward_debt as int);
                let p2 = StakerPosition { reward_debt: (p.amount_staked * acc) as u128, ..p };
                lemma_div_mul_le(pend, precision);
                assert(precision * paid <= pend);
                lemma_pending_sum_update(s.positions, acc, position, p2);
                lemma_total_stakes_update(s.positions, position, p2);
                assert(spec_position_pending(p2, acc) == 0);
                assert(precision * (s.claimed + paid) == precision * s.claimed + precision * paid)
                    by (nonlinear_arith);
            },
            PoolEvent::Unstake { position, amount } => {
                let p = s.positions[position];
                let pend = spec_position_pending(p, acc);
                let paid = spec_pending_tokens(p.amount_staked as int, acc, p.reward_debt as int);
                let p2 = StakerPosition {
                    amount_staked: (p.amount_staked - amount) as u64,
                    reward_debt: ((p.amount_staked - amount) * acc) as u128,
                    ..p
                };
                lemma_div_mul_le(pend, precision);
                assert(precision * paid <= pend);
                assert((p.amount_staked - amount) * acc >= 0) by (nonlinear_arith)
                    requires
                        p.amount_staked >= amount,
                        acc >= 0,
                ;
                assert((p.amount_staked - amount) * acc <= p.amount_staked * acc)
                    by (nonlinear_arith)
                    requires
                        p.amount_staked >= amount,
                        amount >= 0,
                        acc >= 0,
                ;
                lemma_pending_sum_update(s.positions, acc, position, p2);
                lemma_total_stakes_update(s.positions, position, p2);
                assert(spec_position_pending(p2, acc) == 0);
                assert(precision * (s.claimed + paid) == precision * s.claimed + precision * paid)
                    by (nonlinear_arith);
            },
        }
    }
}

/// A whole event sequence keeps the invariant, and the totals only grow.
pub proof fn lemma_events_preserve_inv(s: PoolSystem, evs: Seq<PoolEvent>)
    requires
        sys_inv(s),
    ensures
        sys_inv(spec_apply_events(s, evs)),
        spec_apply_events(s, evs).claimed >= s.claimed,
        spec_apply_events(s, evs).credited >= s.credited,
    decreases evs.len(),
{
    if evs.len() > 0 {
        lemma_event_preserves_inv(s, evs[0]);
        lemma_events_preserve_inv(spec_apply_event(s, evs[0]), evs.drop_first());
    }
}

/// A freshly set-up system — pool total matching its positions, every
/// debt checkpoint exactly at its position's accumulated value, nothing
/// credited, nothing claimed — satisfies the invariant.
pub proof fn lemma_fresh_system_inv(s: PoolSystem)
    requires
        s.pool.total_staked as int == spec_total_stakes(s.positions),
        forall|k: int|
            0 <= k < s.positions.len() ==> (#[trigger] s.positions[k]).reward_debt as int
                == s.positions[k].amount_staked * (s.pool.reward_per_token as int),
        s.credited == 0,
        s.claimed == 0,
    ensures
        sys_inv(s),
{
    let acc = s.pool.reward_per_token as int;
    lemma_pending_sum_zero(s.positions, acc);
}

/// A pending sum over positions whose debts sit exactly at their
/// accumulated values is zero.
proof fn lemma_pending_sum_zero(ps: Seq<StakerPosition>, acc: int)
    requires
        forall|k: int|
            0 <= k < ps.len() ==> (#[trigger] ps[k]).reward_debt as int == ps[k].amount_staked
                * acc,
    ensures
        spec_pending_sum(ps, acc) == 0,
    decreases ps.len(),
{
    if ps.len() > 0 {
        assert(forall|k: int|
            0 <= k < ps.drop_last().len() ==> #[trigger] ps.drop_last()[k] == ps[k]);
        lemma_pending_sum_zero(ps.drop_last(), acc);
        assert(ps.last() == ps[ps.len() - 1]);
    }
}

/// Reward correctness: across any sequence of credit, stake, claim and
/// unstake operations, the total ever paid out never exceeds the total
/// ever credited.  The gap is only ever rounding loss — each payout
/// floors a precision-scaled pending value — so with infinite precision
/// the two would meet.
pub proof fn lemma_reward_no_over_distribution(s0: PoolSystem, evs: Seq<PoolEvent>)
    requires
        sys_inv(s0),
    ensures
        spec_apply_events(s0, evs).claimed <= spec_apply_events(s0, evs).credited,
{
    lemma_events_preserve_inv(s0, evs);
    let s = spec_apply_events(s0, evs);
    let acc = s.pool.reward_per_token as int;
    let precision = REWARD_PRECISION as int;
    lemma_pending_sum_nonneg(s.positions, acc);
    assert(precision * s.claimed <= precision * s.credited);
    assert(s.claimed <= s.credited) by (nonlinear_arith)
        requires
            precision > 0,
            precision * s.claimed <= precision * s.credited,
    ;
}

} // verus!
