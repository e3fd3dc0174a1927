//! The pinner reward ledger: share accounting for content-hosting peers.
//!
//! It mirrors the staking pool's accumulator pattern with shares fixed at
//! registration (one per pinner) and credits coming from harvested fees
//! instead of purchases.

use vstd::prelude::*;
use crate::constants::REWARD_PRECISION;
use crate::errors::ProtocolError;
use crate::staking::{spec_pending_scaled, spec_pending_tokens};
use crate::state::{CollectionState, PinnerState};

verus! {

/// Registers a peer as a host of the collection with one share, checked in
/// against the current accumulator so no past rewards are claimable.
pub fn register_collection_host(
    collection: &mut CollectionState,
    collection_key: u64,
    pinner: u64,
) -> (r: Result<PinnerState, ProtocolError>)
    ensures
        r is Err <==> old(collection).total_shares + 1 > u64::MAX,
        r is Err ==> *final(collection) == *old(collection) && r == Err::<
            PinnerState,
            ProtocolError,
        >(ProtocolError::MathOverflow),
        r matches Ok(host) ==> ({
            &&& host == (PinnerState {
                collection: collection_key,
                pinner,
                is_active: true,
                shares: 1,
                reward_debt: old(collection).acc_reward_per_share,
            })
            &&& *final(collection) == (CollectionState {
                total_shares: (old(collection).total_shares + 1) as u64,
                ..*old(collection)
            })
        }),
{
    let shares: u64 = 1;
    let new_total = match collection.total_shares.checked_add(shares) {
        Some(v) => v,
        None => {
            return Err(ProtocolError::MathOverflow);
        },
    };
    let reward_debt = match (shares as u128).checked_mul(collection.acc_reward_per_share) {
        Some(v) => v,
        None => {
            return Err(ProtocolError::MathOverflow);
        },
    };
    collection.total_shares = new_total;
    Ok(PinnerState { collection: collection_key, pinner, is_active: true, shares, reward_debt })
}

/// The first reason a pinner claim is refused, or `None`.  Pending rewards
/// are taken against the debt checkpoint with saturation (a checkpoint
/// ahead of the accumulator yields nothing rather than failing), and a
/// fractional reward that floors to zero whole tokens is refused so it
/// stays claimable later instead of being silently burned.
pub open spec fn pinner_claim_error(
    collection: CollectionState,
    host: PinnerState,
    fee_vault_amount: u64,
) -> Option<ProtocolError> {
    let shares = host.shares as int;
    let acc = collection.acc_reward_per_share as int;
    let debt = host.reward_debt as int;
    let pending = if shares * acc >= debt {
        shares * acc - debt
    } else {
        0
    };
    if !host.is_active {
        Some(ProtocolError::Unauthorized)
    } else if shares * acc > u128::MAX {
        Some(ProtocolError::MathOverflow)
    } else if pending == 0 {
        Some(ProtocolError::InsufficientFunds)
    } else if pending / (REWARD_PRECISION as int) > u64::MAX {
        Some(ProtocolError::MathOverflow)
    } else if pending / (REWARD_PRECISION as int) == 0 {
        Some(ProtocolError::InsufficientFunds)
    } else if fee_vault_amount < pending / (REWARD_PRECISION as int) {
        Some(ProtocolError::InsufficientFunds)
    } else if collection.reward_pool_balance < pending / (REWARD_PRECISION as int) {
        Some(ProtocolError::MathOverflow)
    } else {
        None
    }
}

/// Pays a pinner its pending share of harvested fees.  The returned
/// whole-token amount is what the host transfers from the collection's fee
/// vault to the pinner; the ledger's accounted balance shrinks by it and
/// the pinner's debt checkpoint moves up to the accumulator.
pub fn claim_rewards(
    collection: &mut CollectionState,
    host: &mut PinnerState,
    fee_vault_amount: u64,
) -> (r: Result<u64, ProtocolError>)
    ensures
        r is Err <==> pinner_claim_error(*old(collection), *old(host), fee_vault_amount) is Some,
        r is Err ==> *final(collection) == *old(collection) && *final(host) == *old(host) && r
            == Err::<u64, ProtocolError>(
            pinner_claim_error(*old(collection), *old(host), fee_vault_amount).unwrap(),
        ),
        r matches Ok(paid) ==> ({
            let shares = old(host).shares as int;
            let acc = old(collection).acc_reward_per_share as int;
            let debt = old(host).reward_debt as int;
            &&& paid == spec_pending_tokens(shares, acc, debt)
            &&& paid > 0
            &&& *final(collection) == (CollectionState {
                reward_pool_balance: (old(collection).reward_pool_balance - paid) as u64,
                ..*old(collection)
            })
            &&& *final(host) == (PinnerState { reward_debt: (shares * acc) as u128, ..*old(host) })
        }),
{
    if !host.is_active {
        return Err(ProtocolError::Unauthorized);
    }
    let accumulated = match (host.shares as u128).checked_mul(collection.acc_reward_per_share) {
        Some(v) => v,
        None => {
            return Err(ProtocolError::MathOverflow);
        },
    };
    let pending = accumulated.saturating_sub(host.reward_debt);
    if pending == 0 {
        return Err(ProtocolError::InsufficientFunds);
    }
    let pending_tokens_wide = pending / REWARD_PRECISION;
    if pending_tokens_wide > u64::MAX as u128 {
        return Err(ProtocolError::MathOverflow);
    }
    let pending_tokens = pending_tokens_wide as u64;
    if pending_tokens == 0 {
        return Err(ProtocolError::InsufficientFunds);
    }
    if fee_vault_amount < pending_tokens {
        return Err(ProtocolError::InsufficientFunds);
    }
    let new_balance = match collection.reward_pool_balance.checked_sub(pending_tokens) {
        Some(v) => v,
        None => {
            return Err(ProtocolError::MathOverflow);
        },
    };
    collection.reward_pool_balance = new_balance;
    host.reward_debt = accumulated;
    Ok(pending_tokens)
}

} // verus!
