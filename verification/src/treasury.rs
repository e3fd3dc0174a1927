//! Fee harvesting: splits a harvested fee amount across the four fixed
//! destinations — hosting peers, collection owner, performer escrow and
//! stakers — with deterministic rounding-remainder handling.

use vstd::prelude::*;
use crate::constants::{REWARD_PRECISION, SPLIT_OWNER, SPLIT_PERFORMER, SPLIT_PINNER, SPLIT_STAKERS};
use crate::errors::ProtocolError;
use crate::math::{lemma_div_mul_le, lemma_proportional_share_le};
use crate::state::{CollectionState, GlobalState, PerformerEscrow};

verus! {

/// The four destination amounts of one harvest.  The owner, performer and
/// staker shares are transferred out of the fee vault by the host; the
/// pinner share stays in the vault and is accounted to the pinner ledger.
#[derive(Clone, Copy, Debug, PartialEq, Eq, Structural)]
pub struct FeeSplit {
    /// Hosting-peer share: the 50% floor plus all rounding dust.
    pub to_pinners: u64,
    /// Collection owner's 20% floor share.
    pub to_owner: u64,
    /// Performer escrow's 20% floor share.
    pub to_performer: u64,
    /// Staker treasury's 10% floor share.
    pub to_stakers: u64,
}

/// One destination's floor share of a harvest, at `percent` of the whole.
pub open spec fn spec_fee_share(harvested: int, percent: int) -> int {
    (harvested * percent) / 100
}

/// What the four floor shares leave over; it is folded into the
/// hosting-peer share so the split conserves the harvest exactly.
pub open spec fn spec_fee_remainder(harvested: int) -> int {
    harvested - (spec_fee_share(harvested, SPLIT_PINNER as int) + spec_fee_share(
        harvested,
        SPLIT_OWNER as int,
    ) + spec_fee_share(harvested, SPLIT_PERFORMER as int) + spec_fee_share(
        harvested,
        SPLIT_STAKERS as int,
    ))
}

/// The hosting-peer share with the rounding remainder folded in.
pub open spec fn spec_pinner_share(harvested: int) -> int {
    spec_fee_share(harvested, SPLIT_PINNER as int) + spec_fee_remainder(harvested)
}

/// The first reason a harvest is refused, or `None`: the caller must be
/// the collection owner or the protocol admin, the amount positive, and
/// every checked update in range.
pub open spec fn harvest_error(
    collection: CollectionState,
    performer_escrow: PerformerEscrow,
    global: GlobalState,
    authority: u64,
    harvested_amount: u64,
) -> Option<ProtocolError> {
    let h = harvested_amount as int;
    let pinners = spec_pinner_share(h);
    if authority != collection.owner && authority != global.admin {
        Some(ProtocolError::Unauthorized)
    } else if harvested_amount == 0 {
        Some(ProtocolError::InsufficientFunds)
    } else if h * (SPLIT_PINNER as int) > u64::MAX {
        Some(ProtocolError::MathOverflow)
    } else if collection.total_shares > 0 && pinners > 0
        && collection.acc_reward_per_share + (pinners * (REWARD_PRECISION as int)) / (
    collection.total_shares as int) > u128::MAX {
        Some(ProtocolError::MathOverflow)
    } else if collection.reward_pool_balance + pinners > u64::MAX {
        Some(ProtocolError::MathOverflow)
    } else if collection.owner_reward_balance + spec_fee_share(h, SPLIT_OWNER as int) > u64::MAX {
        Some(ProtocolError::MathOverflow)
    } else if performer_escrow.balance + spec_fee_share(h, SPLIT_PERFORMER as int) > u64::MAX {
        Some(ProtocolError::MathOverflow)
    } else if collection.staker_reward_balance + spec_fee_share(h, SPLIT_STAKERS as int)
        > u64::MAX {
        Some(ProtocolError::MathOverflow)
    } else {
        None
    }
}

/// Splits a harvested fee amount 50/20/20/10 across hosting peers, owner,
/// performer escrow and stakers, folding the rounding remainder into the
/// hosting-peer share so the four parts conserve the harvest exactly.
/// The pinner ledger's accumulator is credited with the hosting-peer
/// share (when any shares exist) and the accounted balances grow by their
/// parts.
///
/// The host must apply this operation and its three outgoing transfers
/// atomically: carry out the transfers, then persist the updated records,
/// and drop both on any failure — crediting balances for a transfer that
/// never happened would mint rewards out of thin air.
pub fn harvest_fees(
    collection: &mut CollectionState,
    performer_escrow: &mut PerformerEscrow,
    global: &GlobalState,
    authority: u64,
    harvested_amount: u64,
) -> (r: Result<FeeSplit, ProtocolError>)
    ensures
        r is Err <==> harvest_error(
            *old(collection),
            *old(performer_escrow),
            *global,
            authority,
            harvested_amount,
        ) is Some,
        r is Err ==> *final(collection) == *old(collection) && *final(performer_escrow) == *old(
            performer_escrow,
        ) && r == Err::<FeeSplit, ProtocolError>(
            harvest_error(
                *old(collection),
                *old(performer_escrow),
                *global,
                authority,
                harvested_amount,
            ).unwrap(),
        ),
        r matches Ok(split) ==> ({
            let h = harvested_amount as int;
            &&& split.to_pinners == spec_pinner_share(h)
            &&& split.to_owner == spec_fee_share(h, SPLIT_OWNER as int)
            &&& split.to_performer == spec_fee_share(h, SPLIT_PERFORMER as int)
            &&& split.to_stakers == spec_fee_share(h, SPLIT_STAKERS as int)
            &&& split.to_pinners + split.to_owner + split.to_performer + split.to_stakers
                == harvested_amount
            &&& *final(performer_escrow) == (PerformerEscrow {
                balance: (old(performer_escrow).balance + split.to_performer) as u64,
                ..*old(performer_escrow)
            })
            &&& *final(collection) == (CollectionState {
                acc_reward_per_share: if old(collection).total_shares > 0 && split.to_pinners > 0 {
                    (old(collection).acc_reward_per_share + (split.to_pinners as int) * (
                    REWARD_PRECISION as int) / (old(collection).total_shares as int)) as u128
                } else {
                    old(collection).acc_reward_per_share
                },
                reward_pool_balance: (old(collection).reward_pool_balance + split.to_pinners) as u64,
                owner_reward_balance: (old(collection).owner_reward_balance + split.to_owner) as u64,
                staker_reward_balance: (old(collection).staker_reward_balance
                    + split.to_stakers) as u64,
                ..*old(collection)
            })
            &&& final(collection).acc_reward_per_share >= old(collection).acc_reward_per_share
        }),
{
    if authority != collection.owner && authority != global.admin {
        return Err(ProtocolError::Unauthorized);
    }
    if harvested_amount == 0 {
        return Err(ProtocolError::InsufficientFunds);
    }

    let pinner_base = match harvested_amount.checked_mul(SPLIT_PINNER) {
        Some(v) => v,
        None => {
            return Err(ProtocolError::MathOverflow);
        },
    } / 100;
    proof {
        let h = harvested_amount as int;
        lemma_div_mul_le(h * 50, 100);
        lemma_div_mul_le(h * 20, 100);
        lemma_div_mul_le(h * 10, 100);
        assert(h * 20 <= h * 50 && h * 10 <= h * 50 && h * 20 >= 0 && h * 10 >= 0) by (nonlinear_arith)
            requires
                h >= 0,
        ;
    }
    let owner_share = (harvested_amount * SPLIT_OWNER) / 100;
    let performer_share = (harvested_amount * SPLIT_PERFORMER) / 100;
    let staker_share = (harvested_amount * SPLIT_STAKERS) / 100;

    let total_split = pinner_base + owner_share + performer_share + staker_share;
    let remainder = harvested_amount - total_split;
    let final_pinner_share = pinner_base + remainder;

    let mut new_acc = collection.acc_reward_per_share;
    if collection.total_shares > 0 && final_pinner_share > 0 {
        proof {
            lemma_proportional_share_le(
                REWARD_PRECISION as int,
                final_pinner_share as int,
                u64::MAX as int,
            );
            assert((final_pinner_share as int) * (REWARD_PRECISION as int) <= (u64::MAX as int) * (
            REWARD_PRECISION as int)) by (nonlinear_arith)
                requires
                    final_pinner_share <= u64::MAX,
            ;
            lemma_div_mul_le(
                (final_pinner_share as int) * (REWARD_PRECISION as int),
                collection.total_shares as int,
            );
        }
        let reward_added = ((final_pinner_share as u128) * REWARD_PRECISION) / (
        collection.total_shares as u128);
        new_acc = match collection.acc_reward_per_share.checked_add(reward_added) {
            Some(v) => v,
            None => {
                return Err(ProtocolError::MathOverflow);
            },
        };
    }
    let new_pool_balance = match collection.reward_pool_balance.checked_add(final_pinner_share) {
        Some(v) => v,
        None => {
            return Err(ProtocolError::MathOverflow);
        },
    };
    let new_owner_balance = match collection.owner_reward_balance.checked_add(owner_share) {
        Some(v) => v,
        None => {
            return Err(ProtocolError::MathOverflow);
        },
    };
    let new_performer_balance = match performer_escrow.balance.checked_add(performer_share) {
        Some(v) => v,
        None => {
            return Err(ProtocolError::MathOverflow);
        },
    };
    let new_staker_balance = match collection.staker_reward_balance.checked_add(staker_share) {
        Some(v) => v,
        None => {
            return Err(ProtocolError::MathOverflow);
        },
    };

    collection.acc_reward_per_share = new_acc;
    collection.reward_pool_balance = new_pool_balance;
    collection.owner_reward_balance = new_owner_balance;
    collection.staker_reward_balance = new_staker_balance;
    performer_escrow.balance = new_performer_balance;

    Ok(
        FeeSplit {
            to_pinners: final_pinner_share,
            to_owner: owner_share,
            to_performer: performer_share,
            to_stakers: staker_share,
        },
    )
}

} // verus!
