//! The engine's cross-cutting guarantees, stated and proved once, over
//! the same specification functions its operation contracts use: the
//! idempotence of the claim bitmap, the monotonicity of the reward
//! accumulator under arbitrary credit sequences, the exclusivity of the
//! escrow's release and burn windows, and the impossibility of
//! distributing more reward than was ever credited.

use vstd::prelude::*;
use crate::constants::{ESCROW_EXPIRY_SECONDS, REWARD_PRECISION};
use crate::math::lemma_div_mul_le;
use crate::moderation::{copyright_claim_error, lemma_scan_finds_set_bit, lemma_set_bits_effect, spec_moderator_allowed, spec_set_bits};
use crate::staking::spec_credit_increment;
use crate::state::{AccessEscrow, CollectionState, GlobalState, ModTicket, ModeratorStake, TicketType};

verus! {

/// Claiming the same video index twice fails the second time.
///
/// After a copyright claim over `first_indices` has succeeded on
/// `collection` — its bitmap is now the old one with those bits set — any
/// further approved claim whose index list contains one of the indices
/// already paid is refused, whatever else it lists.  Since every refusal
/// of `resolve_copyright_claim` leaves the ticket, the collection and
/// hence the vault untouched, the double payment can never happen.
pub proof fn lemma_claim_bitmap_idempotent(
    before: CollectionState,
    after: CollectionState,
    first_indices: Seq<u16>,
    second: ModTicket,
    stake: ModeratorStake,
    global: GlobalState,
    repeated: u16,
)
    requires
        forall|k: int|
            0 <= k < first_indices.len() ==> ((#[trigger] first_indices[k] / 8) as int)
                < before.claimed_bitmap@.len(),
        after.claimed_bitmap@ == spec_set_bits(before.claimed_bitmap@, first_indices),
        first_indices.contains(repeated),
        second.claim_indices@.contains(repeated),
        second.ticket_type == TicketType::CopyrightClaim,
        !second.resolved,
        spec_moderator_allowed(stake, global),
        after.tokens_minted,
        after.claim_vault_initial_amount > 0,
    ensures
        copyright_claim_error(second, after, stake, global, true) is Some,
{
    let w = choose|w: int| 0 <= w < first_indices.len() && first_indices[w] == repeated;
    lemma_set_bits_effect(before.claimed_bitmap@, first_indices, repeated);
    lemma_scan_finds_set_bit(after.claimed_bitmap@, second.claim_indices@, repeated);
}

/// A pool accumulator after a whole sequence of credits, each applied as
/// `credit_staking_pool` applies it: raised by the scaled proportional
/// increment while anything is staked, and left alone otherwise.
pub open spec fn spec_accumulator_after_credits(
    acc: int,
    total_staked: int,
    credits: Seq<u64>,
) -> int
    decreases credits.len(),
{
    if credits.len() == 0 {
        acc
    } else {
        let next = if total_staked > 0 {
            acc + spec_credit_increment(credits[0] as int, total_staked)
        } else {
            acc
        };
        spec_accumulator_after_credits(next, total_staked, credits.drop_first())
    }
}

/// The reward-per-unit accumulator never decreases across any sequence of
/// credits.
pub proof fn lemma_accumulator_monotone(acc: int, total_staked: int, credits: Seq<u64>)
    requires
        acc >= 0,
        total_staked >= 0,
    ensures
        spec_accumulator_after_credits(acc, total_staked, credits) >= acc,
    decreases credits.len(),
{
    if credits.len() > 0 {
        let next = if total_staked > 0 {
            acc + spec_credit_increment(credits[0] as int, total_staked)
        } else {
            acc
        };
        if total_staked > 0 {
            lemma_div_mul_le((credits[0] as int) * (REWARD_PRECISION as int), total_staked);
            assert((credits[0] as int) * (REWARD_PRECISION as int) >= 0) by (nonlinear_arith);
            assert(spec_credit_increment(credits[0] as int, total_staked) >= 0);
        }
        lemma_accumulator_monotone(next, total_staked, credits.drop_first());
    }
}

/// Whether the buyer may still release the escrow at `now`.
pub open spec fn spec_release_window_open(escrow: AccessEscrow, now: i64) -> bool {
    now - escrow.created_at <= ESCROW_EXPIRY_SECONDS
}

/// Whether anyone may burn the escrow at `now`.
pub open spec fn spec_burn_window_open(escrow: AccessEscrow, now: i64) -> bool {
    now - escrow.created_at > ESCROW_EXPIRY_SECONDS
}

/// At every instant exactly one of the two escrow gates is open: the
/// buyer's release window, which runs up to and including the expiry
/// boundary, or the permissionless burn window, which starts strictly
/// after it.  Release and burn are therefore mutually exclusive and
/// jointly exhaustive in time.
pub proof fn lemma_escrow_windows_exclusive(escrow: AccessEscrow, now: i64)
    ensures
        spec_release_window_open(escrow, now) <==> !spec_burn_window_open(escrow, now),
{
}

} // verus!
