//! Purchases and access escrows.
//!
//! A purchase splits its amount into a protocol fee (ceiling division,
//! favoring the treasury), a staking-pool share and an escrowed peer share
//! (50/50 floor division, with the rounding dust added to the stakers so
//! nothing is lost).  The engine computes the split, credits the pool's
//! reward accumulator and builds the escrow record; the host carries out
//! the three transfers it is handed back.

use vstd::prelude::*;
use crate::constants::{ESCROW_EXPIRY_SECONDS, FEE_DENOMINATOR, MAX_ENCRYPTED_CID_LEN, MAX_PEER_LIST_LENGTH, REWARD_PRECISION, SPLIT_TO_PEERS_ESCROW, SPLIT_TO_STAKERS, VIEW_RIGHTS_VALIDITY_SECONDS};
use crate::errors::ProtocolError;
use crate::math::{lemma_ceiling_fee_le, lemma_div_mul_le, lemma_seq_u64_to_int_push, lemma_sum_u64_eq_sum_int, lemma_sum_u64_take_le, lemma_sum_u64_take_succ, min_int, seq_u64_to_int, sum_int, sum_u64};
use crate::staking::{credit_staking_pool, spec_credit_increment};
use crate::state::{AccessEscrow, CidReveal, CollectionStakingPool, CollectionState, GlobalState, PeerTrustState, ViewRights};

verus! {

/// The three transfer amounts a purchase produces: the protocol fee to the
/// treasury, the staker share to the pool holding, and the peer share into
/// the escrow holding.
#[derive(Clone, Copy, Debug, PartialEq, Eq, Structural)]
pub struct PurchaseSplit {
    /// Fee owed to the protocol treasury.
    pub fee: u64,
    /// Share owed to the collection's staking-pool holding, rounding dust
    /// included.
    pub to_stakers: u64,
    /// Share locked in the escrow holding for the delivering peers.
    pub to_escrow: u64,
}

/// The protocol fee on a purchase: `total * rate` basis points, rounded up
/// so that rounding always favors the treasury.
pub open spec fn spec_purchase_fee(total: int, fee_basis_points: int) -> int {
    (total * fee_basis_points + (10000 - 1)) / 10000
}

/// What remains of a purchase once the protocol fee is taken.
pub open spec fn spec_after_fee(total: int, fee_basis_points: int) -> int {
    total - spec_purchase_fee(total, fee_basis_points)
}

/// The floor half of the amount after fees: the escrowed peer share.
pub open spec fn spec_escrow_share(after_fee: int) -> int {
    (after_fee * 50) / 100
}

/// The staker share: the floor half plus whatever rounding dust the two
/// floor divisions left over, so the whole amount after fees is spoken for.
pub open spec fn spec_stakers_share(after_fee: int) -> int {
    after_fee - spec_escrow_share(after_fee)
}

/// The first reason a purchase is refused, or `None` when it succeeds.
/// The checks run in this order: a zero amount, a blacklisted collection,
/// a content digest that does not match the collection's record, and then
/// the checked arithmetic of the fee, the split and the accumulator credit.
pub open spec fn purchase_error(
    collection: CollectionState,
    pool: CollectionStakingPool,
    global: GlobalState,
    total_amount: u64,
    cid_hash: u64,
) -> Option<ProtocolError> {
    let t = total_amount as int;
    let rate = global.fee_basis_points as int;
    if total_amount == 0 {
        Some(ProtocolError::InsufficientFunds)
    } else if collection.is_blacklisted {
        Some(ProtocolError::Unauthorized)
    } else if cid_hash != collection.cid_hash {
        Some(ProtocolError::Unauthorized)
    } else if t * rate + (10000 - 1) > u64::MAX {
        Some(ProtocolError::MathOverflow)
    } else if spec_after_fee(t, rate) * 50 > u64::MAX {
        Some(ProtocolError::MathOverflow)
    } else if pool.total_staked > 0 && pool.reward_per_token + spec_credit_increment(
        spec_stakers_share(spec_after_fee(t, rate)),
        pool.total_staked as int,
    ) > u128::MAX {
        Some(ProtocolError::MathOverflow)
    } else {
        None
    }
}

/// Settles a purchase of access to `collection`.
///
/// On success the returned escrow is the new value lock (`amount_locked`
/// equal to the peer share, created now, digest pinned), the pool
/// accumulator has been credited with the staker share — or left alone
/// when nothing is staked, in which case that share merely sits in the
/// pool holding — and the returned split says what to transfer where.
/// The split conserves the purchase exactly: fee plus staker share plus
/// escrow share equals the amount paid.
///
/// The host must refuse the purchase itself when a live escrow for the
/// same purchaser and collection already exists: at most one may be
/// outstanding per pair.
pub fn purchase_access(
    pool: &mut CollectionStakingPool,
    collection: &CollectionState,
    global: &GlobalState,
    collection_key: u64,
    purchaser: u64,
    access_nft_mint: u64,
    total_amount: u64,
    cid_hash: u64,
    now: i64,
) -> (r: Result<(AccessEscrow, PurchaseSplit), ProtocolError>)
    requires
        global.wf(),
    ensures
        r is Err <==> purchase_error(*collection, *old(pool), *global, total_amount, cid_hash)
            is Some,
        r is Err ==> *final(pool) == *old(pool) && r == Err::<
            (AccessEscrow, PurchaseSplit),
            ProtocolError,
        >(purchase_error(*collection, *old(pool), *global, total_amount, cid_hash).unwrap()),
        r matches Ok((escrow, split)) ==> ({
            let t = total_amount as int;
            let rate = global.fee_basis_points as int;
            let after = spec_after_fee(t, rate);
            &&& split.fee == spec_purchase_fee(t, rate)
            &&& split.to_stakers == spec_stakers_share(after)
            &&& split.to_escrow == spec_escrow_share(after)
            &&& split.fee + split.to_stakers + split.to_escrow == total_amount
            &&& escrow == (AccessEscrow {
                purchaser,
                collection: collection_key,
                access_nft_mint,
                cid_hash,
                amount_locked: split.to_escrow,
                created_at: now,
                is_cid_revealed: false,
            })
            &&& final(pool).collection == old(pool).collection
            &&& final(pool).total_staked == old(pool).total_staked
            &&& final(pool).reward_per_token == if old(pool).total_staked > 0 {
                old(pool).reward_per_token + spec_credit_increment(
                    split.to_stakers as int,
                    old(pool).total_staked as int,
                )
            } else {
                old(pool).reward_per_token as int
            }
            &&& final(pool).reward_per_token >= old(pool).reward_per_token
        }),
{
    if total_amount == 0 {
        return Err(ProtocolError::InsufficientFunds);
    }
    if collection.is_blacklisted {
        return Err(ProtocolError::Unauthorized);
    }
    if cid_hash != collection.cid_hash {
        return Err(ProtocolError::Unauthorized);
    }

    let rate = global.fee_basis_points as u64;
    let fee_numerator = match total_amount.checked_mul(rate) {
        Some(v) => v,
        None => {
            return Err(ProtocolError::MathOverflow);
        },
    };
    let fee_rounded = match fee_numerator.checked_add(FEE_DENOMINATOR - 1) {
        Some(v) => v,
        None => {
            return Err(ProtocolError::MathOverflow);
        },
    };
    let total_fee = fee_rounded / FEE_DENOMINATOR;
    proof {
        lemma_ceiling_fee_le(total_amount as int, rate as int);
    }
    let amount_after_fee = total_amount - total_fee;

    let stakers_product = match amount_after_fee.checked_mul(SPLIT_TO_STAKERS) {
        Some(v) => v,
        None => {
            return Err(ProtocolError::MathOverflow);
        },
    };
    let half_to_stakers = stakers_product / 100;
    let escrow_product = match amount_after_fee.checked_mul(SPLIT_TO_PEERS_ESCROW) {
        Some(v) => v,
        None => {
            return Err(ProtocolError::MathOverflow);
        },
    };
    let amount_to_escrow = escrow_product / 100;
    proof {
        lemma_div_mul_le(amount_after_fee as int * 50, 100);
    }
    let total_split = half_to_stakers + amount_to_escrow;
    let remainder = amount_after_fee - total_split;
    let final_to_stakers = half_to_stakers + remainder;

    match credit_staking_pool(pool, final_to_stakers) {
        Ok(()) => {},
        Err(e) => {
            return Err(e);
        },
    }

    let escrow = AccessEscrow {
        purchaser,
        collection: collection_key,
        access_nft_mint,
        cid_hash,
        amount_locked: amount_to_escrow,
        created_at: now,
        is_cid_revealed: false,
    };
    let split = PurchaseSplit { fee: total_fee, to_stakers: final_to_stakers, to_escrow: amount_to_escrow };
    Ok((escrow, split))
}


/// One peer's payout from a release: the proportional floor share,
/// clamped so that rounding can never pay out more than what is still
/// locked after the peers before it in the list.
pub open spec fn spec_release_share(locked: int, weight: int, total_weight: int, sent: int) -> int {
    min_int((locked * weight) / total_weight, locked - sent)
}

/// The payouts of a whole release, in peer-list order: each entry is the
/// clamped proportional share of the locked amount, computed against the
/// running total already granted to the peers before it.
pub open spec fn spec_release_amounts(locked: int, total_weight: int, weights: Seq<u64>) -> Seq<
    int,
>
    decreases weights.len(),
{
    if weights.len() == 0 {
        Seq::empty()
    } else {
        let prefix = spec_release_amounts(locked, total_weight, weights.drop_last());
        prefix.push(
            spec_release_share(locked, weights.last() as int, total_weight, sum_int(prefix)),
        )
    }
}

/// Release payouts are non-negative and their sum never exceeds the locked
/// amount: the clamp makes over-payment impossible whatever the weights.
pub proof fn lemma_release_amounts_bounds(locked: int, total_weight: int, weights: Seq<u64>)
    requires
        locked >= 0,
        total_weight > 0,
    ensures
        spec_release_amounts(locked, total_weight, weights).len() == weights.len(),
        forall|k: int|
            0 <= k < weights.len() ==> #[trigger] spec_release_amounts(
                locked,
                total_weight,
                weights,
            )[k] >= 0,
        0 <= sum_int(spec_release_amounts(locked, total_weight, weights)) <= locked,
    decreases weights.len(),
{
    if weights.len() > 0 {
        lemma_release_amounts_bounds(locked, total_weight, weights.drop_last());
        let prefix = spec_release_amounts(locked, total_weight, weights.drop_last());
        let w = weights.last() as int;
        assert(locked * w >= 0) by (nonlinear_arith)
            requires
                locked >= 0,
                w >= 0,
        ;
        lemma_div_mul_le(locked * w, total_weight);
        let share = spec_release_share(locked, w, total_weight, sum_int(prefix));
        crate::math::lemma_sum_int_push(prefix, share);
        assert(spec_release_amounts(locked, total_weight, weights) == prefix.push(share));
    }
}

/// Extending the weight list by one peer appends that peer's clamped share
/// to the payout list.
pub proof fn lemma_release_amounts_take_succ(
    locked: int,
    total_weight: int,
    weights: Seq<u64>,
    i: int,
)
    requires
        0 <= i < weights.len(),
    ensures
        spec_release_amounts(locked, total_weight, weights.take(i + 1)) == spec_release_amounts(
            locked,
            total_weight,
            weights.take(i),
        ).push(
            spec_release_share(
                locked,
                weights[i] as int,
                total_weight,
                sum_int(spec_release_amounts(locked, total_weight, weights.take(i))),
            ),
        ),
{
    assert(weights.take(i + 1).drop_last() =~= weights.take(i));
    assert(weights.take(i + 1).last() == weights[i]);
}

/// How a release touches one peer's trust record: a peer that was actually
/// paid and already has a record gains one successful serve and the release
/// weight; everyone else is left untouched.
pub open spec fn spec_trust_update(
    prior: Option<PeerTrustState>,
    weight: u64,
    amount: int,
    now: i64,
) -> Option<PeerTrustState> {
    if amount > 0 && prior is Some {
        let t = prior.unwrap();
        Some(
            PeerTrustState {
                peer_wallet: t.peer_wallet,
                total_successful_serves: (t.total_successful_serves + 1) as u64,
                trust_score: (t.trust_score + weight) as u64,
                last_active: now,
            },
        )
    } else {
        prior
    }
}

/// The first reason a release is refused before its peer loop runs, or
/// `None`.  The checks run in this order: the caller must be the escrow's
/// purchaser and the escrow must belong to the collection, the peer list
/// must be well-shaped and bounded, the escrow must still be inside its
/// release window and hold value, and the weights must sum to something
/// positive without overflowing.
pub open spec fn release_precheck_error(
    escrow: AccessEscrow,
    collection_key: u64,
    caller: u64,
    n_wallets: int,
    n_weights: int,
    n_trust: int,
    weights: Seq<u64>,
    now: i64,
) -> Option<ProtocolError> {
    if caller != escrow.purchaser {
        Some(ProtocolError::Unauthorized)
    } else if escrow.collection != collection_key {
        Some(ProtocolError::Unauthorized)
    } else if n_wallets != n_weights || n_wallets == 0 {
        Some(ProtocolError::InvalidFeeConfig)
    } else if n_wallets > MAX_PEER_LIST_LENGTH {
        Some(ProtocolError::PeerListTooLong)
    } else if now - escrow.created_at > i64::MAX || now - escrow.created_at < i64::MIN {
        Some(ProtocolError::MathOverflow)
    } else if now - escrow.created_at > ESCROW_EXPIRY_SECONDS {
        Some(ProtocolError::EscrowExpired)
    } else if escrow.amount_locked == 0 {
        Some(ProtocolError::InsufficientFunds)
    } else if sum_u64(weights) > u64::MAX {
        Some(ProtocolError::MathOverflow)
    } else if sum_u64(weights) == 0 {
        Some(ProtocolError::InvalidFeeConfig)
    } else if n_trust != n_wallets {
        Some(ProtocolError::InvalidFeeConfig)
    } else {
        None
    }
}

/// The first reason the peer loop of a release stops at or after position
/// `i` (given `sent` already granted), or `None` when it runs to the end:
/// a proportional share whose product overflows, a trust record under a
/// wallet other than the listed peer, or a trust counter that would
/// overflow.
pub open spec fn release_loop_error(
    locked: int,
    total_weight: int,
    wallets: Seq<u64>,
    weights: Seq<u64>,
    trust: Seq<Option<PeerTrustState>>,
    i: int,
    sent: int,
) -> Option<ProtocolError>
    decreases weights.len() - i,
{
    if i < 0 || i >= weights.len() {
        None
    } else {
        let w = weights[i] as int;
        if locked * w > u64::MAX {
            Some(ProtocolError::MathOverflow)
        } else {
            let amount = spec_release_share(locked, w, total_weight, sent);
            if amount > 0 && trust[i] is Some {
                let t = trust[i].unwrap();
                if t.peer_wallet != wallets[i] {
                    Some(ProtocolError::Unauthorized)
                } else if t.total_successful_serves + 1 > u64::MAX {
                    Some(ProtocolError::MathOverflow)
                } else if t.trust_score + w > u64::MAX {
                    Some(ProtocolError::MathOverflow)
                } else {
                    release_loop_error(
                        locked,
                        total_weight,
                        wallets,
                        weights,
                        trust,
                        i + 1,
                        sent + amount,
                    )
                }
            } else {
                release_loop_error(
                    locked,
                    total_weight,
                    wallets,
                    weights,
                    trust,
                    i + 1,
                    sent + amount,
                )
            }
        }
    }
}

/// The first reason a whole release is refused, or `None` when it
/// succeeds: the prechecks, then the peer loop, then the collection's
/// aggregate trust-score update.
pub open spec fn release_error(
    escrow: AccessEscrow,
    collection: CollectionState,
    collection_key: u64,
    caller: u64,
    wallets: Seq<u64>,
    weights: Seq<u64>,
    trust: Seq<Option<PeerTrustState>>,
    now: i64,
) -> Option<ProtocolError> {
    let pre = release_precheck_error(
        escrow,
        collection_key,
        caller,
        wallets.len() as int,
        weights.len() as int,
        trust.len() as int,
        weights,
        now,
    );
    if pre is Some {
        pre
    } else {
        let locked = escrow.amount_locked as int;
        let tw = sum_u64(weights);
        let le = release_loop_error(locked, tw, wallets, weights, trust, 0, 0);
        if le is Some {
            le
        } else if collection.total_trust_score + tw > u64::MAX {
            Some(ProtocolError::MathOverflow)
        } else {
            None
        }
    }
}

/// Releases the escrowed purchase to the delivering peers, in list order,
/// each receiving its proportional floor share of the locked amount by
/// trust weight, clamped so the total granted never exceeds what was
/// locked.  Only the buyer may do this, and only inside the expiry window.
///
/// On success the returned vector holds each peer's payout (the host
/// transfers them out of the escrow holding), the escrow is terminal
/// (`amount_locked` zero), the collection's aggregate trust score has
/// grown by the weight total, and every paid peer with an existing trust
/// record has been credited one serve and its weight.  Peers without a
/// trust record are paid but not scored.  On failure nothing changes.
pub fn release_escrow(
    escrow: &mut AccessEscrow,
    collection: &mut CollectionState,
    peer_trust: &mut Vec<Option<PeerTrustState>>,
    collection_key: u64,
    caller: u64,
    peer_wallets: &Vec<u64>,
    peer_weights: &Vec<u64>,
    now: i64,
) -> (r: Result<Vec<u64>, ProtocolError>)
    ensures
        r is Err <==> release_error(
            *old(escrow),
            *old(collection),
            collection_key,
            caller,
            peer_wallets@,
            peer_weights@,
            old(peer_trust)@,
            now,
        ) is Some,
        r is Err ==> r == Err::<Vec<u64>, ProtocolError>(
            release_error(
                *old(escrow),
                *old(collection),
                collection_key,
                caller,
                peer_wallets@,
                peer_weights@,
                old(peer_trust)@,
                now,
            ).unwrap(),
        ) && *final(escrow) == *old(escrow) && *final(collection) == *old(collection)
            && final(peer_trust)@ == old(peer_trust)@,
        r matches Ok(amounts) ==> ({
            let locked = old(escrow).amount_locked as int;
            let tw = sum_u64(peer_weights@);
            let spec_amounts = spec_release_amounts(locked, tw, peer_weights@);
            &&& amounts@.len() == peer_wallets@.len()
            &&& seq_u64_to_int(amounts@) == spec_amounts
            &&& sum_u64(amounts@) <= old(escrow).amount_locked
            &&& *final(escrow) == (AccessEscrow { amount_locked: 0, ..*old(escrow) })
            &&& *final(collection) == (CollectionState {
                total_trust_score: (old(collection).total_trust_score + tw) as u64,
                ..*old(collection)
            })
            &&& final(peer_trust)@.len() == old(peer_trust)@.len()
            &&& forall|k: int|
                0 <= k < amounts@.len() ==> final(peer_trust)@[k] == spec_trust_update(
                    old(peer_trust)@[k],
                    peer_weights@[k],
                    spec_amounts[k],
                    now,
                )
        }),
{
    if caller != escrow.purchaser {
        return Err(ProtocolError::Unauthorized);
    }
    if escrow.collection != collection_key {
        return Err(ProtocolError::Unauthorized);
    }
    let n = peer_wallets.len();
    if n != peer_weights.len() || n == 0 {
        return Err(ProtocolError::InvalidFeeConfig);
    }
    if n > MAX_PEER_LIST_LENGTH {
        return Err(ProtocolError::PeerListTooLong);
    }
    let time_elapsed = match now.checked_sub(escrow.created_at) {
        Some(v) => v,
        None => {
            return Err(ProtocolError::MathOverflow);
        },
    };
    if time_elapsed > ESCROW_EXPIRY_SECONDS {
        return Err(ProtocolError::EscrowExpired);
    }
    if escrow.amount_locked == 0 {
        return Err(ProtocolError::InsufficientFunds);
    }

    let mut total_weight: u64 = 0;
    let mut j: usize = 0;
    while j < n
        invariant
            j <= n,
            n == peer_weights@.len(),
            n == peer_wallets@.len(),
            total_weight == sum_u64(peer_weights@.take(j as int)),
            *escrow == *old(escrow),
            *collection == *old(collection),
            peer_trust@ == old(peer_trust)@,
            caller == old(escrow).purchaser,
            old(escrow).collection == collection_key,
            0 < n <= MAX_PEER_LIST_LENGTH,
            i64::MIN <= now - old(escrow).created_at <= ESCROW_EXPIRY_SECONDS,
            old(escrow).amount_locked > 0,
        decreases n - j,
    {
        proof {
            lemma_sum_u64_take_succ(peer_weights@, j as int);
        }
        total_weight = match total_weight.checked_add(peer_weights[j]) {
            Some(v) => v,
            None => {
                proof {
                    lemma_sum_u64_take_le(peer_weights@, j as int + 1);
                }
                return Err(ProtocolError::MathOverflow);
            },
        };
        j += 1;
    }
    proof {
        assert(peer_weights@.take(n as int) =~= peer_weights@);
    }
    if total_weight == 0 {
        return Err(ProtocolError::InvalidFeeConfig);
    }
    if peer_trust.len() != n {
        return Err(ProtocolError::InvalidFeeConfig);
    }

    let locked = escrow.amount_locked;
    let ghost locked_int = locked as int;
    let ghost tw = sum_u64(peer_weights@);
    let ghost wallets_seq = peer_wallets@;
    let ghost weights_seq = peer_weights@;
    let ghost trust_seq = peer_trust@;

    let mut amounts: Vec<u64> = Vec::new();
    let mut new_trust: Vec<Option<PeerTrustState>> = Vec::new();
    let mut total_sent: u64 = 0;
    let mut i: usize = 0;
    while i < n
        invariant
            i <= n,
            n == wallets_seq.len(),
            n == weights_seq.len(),
            n == trust_seq.len(),
            peer_wallets@ == wallets_seq,
            peer_weights@ == weights_seq,
            peer_trust@ == trust_seq,
            *escrow == *old(escrow),
            *collection == *old(collection),
            trust_seq == old(peer_trust)@,
            caller == old(escrow).purchaser,
            old(escrow).collection == collection_key,
            0 < n <= MAX_PEER_LIST_LENGTH,
            i64::MIN <= now - old(escrow).created_at <= ESCROW_EXPIRY_SECONDS,
            locked == escrow.amount_locked,
            locked_int == locked as int,
            locked > 0,
            tw == sum_u64(weights_seq),
            0 < tw <= u64::MAX,
            total_weight as int == tw,
            amounts@.len() == i,
            new_trust@.len() == i,
            seq_u64_to_int(amounts@) == spec_release_amounts(
                locked_int,
                tw,
                weights_seq.take(i as int),
            ),
            total_sent as int == sum_int(
                spec_release_amounts(locked_int, tw, weights_seq.take(i as int)),
            ),
            total_sent <= locked,
            release_loop_error(locked_int, tw, wallets_seq, weights_seq, trust_seq, 0, 0)
                == release_loop_error(
                locked_int,
                tw,
                wallets_seq,
                weights_seq,
                trust_seq,
                i as int,
                total_sent as int,
            ),
            forall|k: int|
                0 <= k < i ==> new_trust@[k] == spec_trust_update(
                    trust_seq[k],
                    weights_seq[k],
                    spec_release_amounts(locked_int, tw, weights_seq.take(i as int))[k],
                    now,
                ),
        decreases n - i,
    {
        let w = peer_weights[i];
        let prod = match locked.checked_mul(w) {
            Some(v) => v,
            None => {
                return Err(ProtocolError::MathOverflow);
            },
        };
        let share = prod / total_weight;
        let remaining = locked - total_sent;
        let amount = if share > remaining {
            remaining
        } else {
            share
        };
        assert(amount as int == spec_release_share(locked_int, w as int, tw, total_sent as int));
        let cur = peer_trust[i];
        if amount > 0 {
            match cur {
                Some(t) => {
                    if t.peer_wallet != peer_wallets[i] {
                        return Err(ProtocolError::Unauthorized);
                    }
                    let serves = match t.total_successful_serves.checked_add(1) {
                        Some(v) => v,
                        None => {
                            return Err(ProtocolError::MathOverflow);
                        },
                    };
                    let score = match t.trust_score.checked_add(w) {
                        Some(v) => v,
                        None => {
                            return Err(ProtocolError::MathOverflow);
                        },
                    };
                    new_trust.push(
                        Some(
                            PeerTrustState {
                                peer_wallet: t.peer_wallet,
                                total_successful_serves: serves,
                                trust_score: score,
                                last_active: now,
                            },
                        ),
                    );
                },
                None => {
                    new_trust.push(None);
                },
            }
        } else {
            new_trust.push(cur);
        }
        proof {
            lemma_release_amounts_take_succ(locked_int, tw, weights_seq, i as int);
            lemma_seq_u64_to_int_push(amounts@, amount);
            crate::math::lemma_sum_int_push(
                spec_release_amounts(locked_int, tw, weights_seq.take(i as int)),
                amount as int,
            );
            lemma_release_amounts_bounds(locked_int, tw, weights_seq.take(i as int + 1));
        }
        amounts.push(amount);
        total_sent = total_sent + amount;
        i += 1;
    }

    proof {
        assert(weights_seq.take(n as int) =~= weights_seq);
    }
    let new_trust_score = match collection.total_trust_score.checked_add(total_weight) {
        Some(v) => v,
        None => {
            return Err(ProtocolError::MathOverflow);
        },
    };
    escrow.amount_locked = 0;
    collection.total_trust_score = new_trust_score;
    *peer_trust = new_trust;
    proof {
        lemma_sum_u64_eq_sum_int(amounts@);
    }
    Ok(amounts)
}


/// Creates a bare escrow for an already-swapped purchase amount, without
/// the fee-and-split flow: the whole amount is locked for the peers.  The
/// host transfers `amount_locked` from the purchaser into the escrow
/// holding on success.
pub fn create_access_escrow(
    collection: &CollectionState,
    collection_key: u64,
    purchaser: u64,
    amount_locked: u64,
    cid_hash: u64,
    access_nft_mint: u64,
    now: i64,
) -> (r: Result<AccessEscrow, ProtocolError>)
    ensures
        r == if amount_locked == 0 {
            Err::<AccessEscrow, ProtocolError>(ProtocolError::InsufficientFunds)
        } else if collection.is_blacklisted || cid_hash != collection.cid_hash {
            Err::<AccessEscrow, ProtocolError>(ProtocolError::Unauthorized)
        } else {
            Ok::<AccessEscrow, ProtocolError>(
                AccessEscrow {
                    purchaser,
                    collection: collection_key,
                    access_nft_mint,
                    cid_hash,
                    amount_locked,
                    created_at: now,
                    is_cid_revealed: false,
                },
            )
        },
{
    if amount_locked == 0 {
        return Err(ProtocolError::InsufficientFunds);
    }
    if collection.is_blacklisted {
        return Err(ProtocolError::Unauthorized);
    }
    if cid_hash != collection.cid_hash {
        return Err(ProtocolError::Unauthorized);
    }
    Ok(
        AccessEscrow {
            purchaser,
            collection: collection_key,
            access_nft_mint,
            cid_hash,
            amount_locked,
            created_at: now,
            is_cid_revealed: false,
        },
    )
}

/// Decides the permissionless cleanup of an expired escrow.  Anyone may
/// call it once the release window has strictly passed; the whole actual
/// balance of the escrow holding — not the recorded lock, which misses
/// release-time rounding dust — is returned for the host to burn, after
/// which the host closes the record and pays its storage deposit to the
/// caller.  Succeeds exactly when the window has passed and the holding
/// still has value.
pub fn burn_expired_escrow(escrow: &AccessEscrow, escrow_token_balance: u64, now: i64) -> (r:
    Result<u64, ProtocolError>)
    ensures
        r == if now - escrow.created_at > i64::MAX || now - escrow.created_at < i64::MIN {
            Err::<u64, ProtocolError>(ProtocolError::MathOverflow)
        } else if now - escrow.created_at <= ESCROW_EXPIRY_SECONDS {
            Err::<u64, ProtocolError>(ProtocolError::EscrowNotExpired)
        } else if escrow_token_balance == 0 {
            Err::<u64, ProtocolError>(ProtocolError::InsufficientFunds)
        } else {
            Ok::<u64, ProtocolError>(escrow_token_balance)
        },
{
    let time_elapsed = match now.checked_sub(escrow.created_at) {
        Some(v) => v,
        None => {
            return Err(ProtocolError::MathOverflow);
        },
    };
    if time_elapsed <= ESCROW_EXPIRY_SECONDS {
        return Err(ProtocolError::EscrowNotExpired);
    }
    if escrow_token_balance == 0 {
        return Err(ProtocolError::InsufficientFunds);
    }
    Ok(escrow_token_balance)
}

/// Records a pinner's encrypted reveal of the content identifier to the
/// purchaser, and marks the escrow revealed.  Each escrow accepts only the
/// first reveal, and the encrypted payload must be non-empty and bounded.
pub fn reveal_cid(
    escrow: &mut AccessEscrow,
    escrow_key: u64,
    pinner: u64,
    encrypted_cid: Vec<u8>,
    now: i64,
) -> (r: Result<CidReveal, ProtocolError>)
    ensures
        r is Err ==> *final(escrow) == *old(escrow),
        old(escrow).is_cid_revealed ==> r == Err::<CidReveal, ProtocolError>(
            ProtocolError::Unauthorized,
        ),
        !old(escrow).is_cid_revealed && (encrypted_cid@.len() == 0 || encrypted_cid@.len()
            > MAX_ENCRYPTED_CID_LEN) ==> r == Err::<CidReveal, ProtocolError>(
            ProtocolError::InvalidFeeConfig,
        ),
        !old(escrow).is_cid_revealed && 0 < encrypted_cid@.len() <= MAX_ENCRYPTED_CID_LEN ==> ({
            &&& r matches Ok(reveal)
            &&& reveal.escrow == escrow_key
            &&& reveal.pinner == pinner
            &&& reveal.encrypted_cid@ == encrypted_cid@
            &&& reveal.revealed_at == now
            &&& *final(escrow) == (AccessEscrow { is_cid_revealed: true, ..*old(escrow) })
        }),
{
    if escrow.is_cid_revealed {
        return Err(ProtocolError::Unauthorized);
    }
    if encrypted_cid.len() == 0 {
        return Err(ProtocolError::InvalidFeeConfig);
    }
    if encrypted_cid.len() > MAX_ENCRYPTED_CID_LEN {
        return Err(ProtocolError::InvalidFeeConfig);
    }
    let reveal = CidReveal { escrow: escrow_key, pinner, encrypted_cid, revealed_at: now };
    escrow.is_cid_revealed = true;
    Ok(reveal)
}

/// Opens a fresh trust record for a peer, with zeroed counters.  A peer
/// must do this before escrow releases can credit its trust score.
pub fn initialize_peer_trust_state(peer: u64, now: i64) -> (t: PeerTrustState)
    ensures
        t == (PeerTrustState {
            peer_wallet: peer,
            total_successful_serves: 0,
            trust_score: 0,
            last_active: now,
        }),
{
    PeerTrustState {
        peer_wallet: peer,
        total_successful_serves: 0,
        trust_score: 0,
        last_active: now,
    }
}

/// The USD-cent value of a token holding at `price_usd_cents` per whole
/// token of one million base units.
pub open spec fn spec_holding_value_cents(token_balance: int, price_usd_cents: int) -> int {
    (token_balance * price_usd_cents) / 1000000
}

/// Grants or renews a time-limited view right against the caller's token
/// holdings: the holding's USD value at the oracle price must reach the
/// collection's access threshold.  The returned right runs for the full
/// validity window from `now`, whether fresh or a renewal.
pub fn buy_access_token(
    collection: &CollectionState,
    collection_key: u64,
    payer: u64,
    token_balance: u64,
    price_usd_cents: u64,
    now: i64,
) -> (r: Result<ViewRights, ProtocolError>)
    ensures
        r == if token_balance == 0 {
            Err::<ViewRights, ProtocolError>(ProtocolError::InsufficientFunds)
        } else if price_usd_cents == 0 {
            Err::<ViewRights, ProtocolError>(ProtocolError::InvalidOraclePrice)
        } else if token_balance * price_usd_cents > u64::MAX {
            Err::<ViewRights, ProtocolError>(ProtocolError::MathOverflow)
        } else if spec_holding_value_cents(token_balance as int, price_usd_cents as int)
            < collection.access_threshold_usd {
            Err::<ViewRights, ProtocolError>(ProtocolError::InsufficientFunds)
        } else if now + VIEW_RIGHTS_VALIDITY_SECONDS > i64::MAX {
            Err::<ViewRights, ProtocolError>(ProtocolError::MathOverflow)
        } else {
            Ok::<ViewRights, ProtocolError>(
                ViewRights {
                    owner: payer,
                    collection: collection_key,
                    minted_at: now,
                    expires_at: (now + VIEW_RIGHTS_VALIDITY_SECONDS) as i64,
                },
            )
        },
{
    if token_balance == 0 {
        return Err(ProtocolError::InsufficientFunds);
    }
    if price_usd_cents == 0 {
        return Err(ProtocolError::InvalidOraclePrice);
    }
    let value_product = match token_balance.checked_mul(price_usd_cents) {
        Some(v) => v,
        None => {
            return Err(ProtocolError::MathOverflow);
        },
    };
    let token_value_usd_cents = value_product / 1000000;
    if token_value_usd_cents < collection.access_threshold_usd {
        return Err(ProtocolError::InsufficientFunds);
    }
    let expires_at = match now.checked_add(VIEW_RIGHTS_VALIDITY_SECONDS) {
        Some(v) => v,
        None => {
            return Err(ProtocolError::MathOverflow);
        },
    };
    Ok(ViewRights { owner: payer, collection: collection_key, minted_at: now, expires_at })
}

} // verus!

