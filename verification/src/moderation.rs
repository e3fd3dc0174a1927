//! Moderation tickets: content reports, proportional copyright-claim
//! payouts guarded by the claim bitmap, and per-unit censorship.
//!
//! The claim bitmap holds one bit per video index.  A bit is set the first
//! time a copyright claim pays that index out and is never cleared, which
//! is what makes double payment impossible; the payout per index is fixed
//! against the claim vault's snapshot taken at mint time.

use vstd::prelude::*;
use crate::constants::{MAX_ID_LEN, MAX_REASON_LEN, MAX_URL_LEN};
use crate::errors::ProtocolError;
use crate::state::{CollectionState, GlobalState, ModTicket, ModeratorStake, TicketType};

verus! {

/// Whether the bit for video index `idx` is set in the bitmap.
pub open spec fn spec_bit_is_set(bitmap: Seq<u8>, idx: u16) -> bool {
    (bitmap[(idx / 8) as int] >> ((idx % 8) as u8)) & 1 == 1
}

/// The bitmap with the bit for video index `idx` set.
pub open spec fn spec_set_bit(bitmap: Seq<u8>, idx: u16) -> Seq<u8> {
    bitmap.update((idx / 8) as int, bitmap[(idx / 8) as int] | (1u8 << ((idx % 8) as u8)))
}

/// The bitmap with the bit for video index `idx` cleared.
pub open spec fn spec_clear_bit(bitmap: Seq<u8>, idx: u16) -> Seq<u8> {
    bitmap.update((idx / 8) as int, bitmap[(idx / 8) as int] & !(1u8 << ((idx % 8) as u8)))
}

/// The bitmap with the bits of all listed indices set, in list order.
pub open spec fn spec_set_bits(bitmap: Seq<u8>, indices: Seq<u16>) -> Seq<u8>
    decreases indices.len(),
{
    if indices.len() == 0 {
        bitmap
    } else {
        spec_set_bits(spec_set_bit(bitmap, indices[0]), indices.drop_first())
    }
}

/// Setting a bit raises exactly that bit of the byte.
proof fn lemma_or_bit_sets(b: u8, k: u8)
    requires
        k < 8,
    ensures
        ((b | (1u8 << k)) >> k) & 1 == 1,
{
    assert(((b | (1u8 << k)) >> k) & 1 == 1) by (bit_vector)
        requires
            k < 8,
    ;
}

/// Setting one bit leaves every other bit of the byte as it was.
proof fn lemma_or_bit_preserves(b: u8, k: u8, k2: u8)
    requires
        k < 8,
        k2 < 8,
        k != k2,
    ensures
        ((b | (1u8 << k)) >> k2) & 1 == (b >> k2) & 1,
{
    assert(((b | (1u8 << k)) >> k2) & 1 == (b >> k2) & 1) by (bit_vector)
        requires
            k < 8,
            k2 < 8,
            k != k2,
    ;
}

/// Clearing a bit lowers exactly that bit of the byte.
proof fn lemma_and_not_bit_clears(b: u8, k: u8)
    requires
        k < 8,
    ensures
        ((b & !(1u8 << k)) >> k) & 1 == 0,
{
    assert(((b & !(1u8 << k)) >> k) & 1 == 0) by (bit_vector)
        requires
            k < 8,
    ;
}

/// Clearing one bit leaves every other bit of the byte as it was.
proof fn lemma_and_not_bit_preserves(b: u8, k: u8, k2: u8)
    requires
        k < 8,
        k2 < 8,
        k != k2,
    ensures
        ((b & !(1u8 << k)) >> k2) & 1 == (b >> k2) & 1,
{
    assert(((b & !(1u8 << k)) >> k2) & 1 == (b >> k2) & 1) by (bit_vector)
        requires
            k < 8,
            k2 < 8,
            k != k2,
    ;
}

/// Two video indices agree exactly when their byte and bit positions do.
proof fn lemma_index_from_byte_and_bit(a: u16, b: u16)
    requires
        a / 8 == b / 8,
        a % 8 == b % 8,
    ensures
        a == b,
{
    assert(a == 8 * (a / 8) + a % 8) by (nonlinear_arith);
    assert(b == 8 * (b / 8) + b % 8) by (nonlinear_arith);
}

/// Setting the bit of `idx` sets it, keeps every other index's bit as it
/// was, and keeps the bitmap's length.
pub proof fn lemma_set_bit_effect(bitmap: Seq<u8>, idx: u16, other: u16)
    requires
        ((idx / 8) as int) < bitmap.len(),
        ((other / 8) as int) < bitmap.len(),
    ensures
        spec_set_bit(bitmap, idx).len() == bitmap.len(),
        spec_bit_is_set(spec_set_bit(bitmap, idx), other) <==> (other == idx || spec_bit_is_set(
            bitmap,
            other,
        )),
{
    let k = (idx % 8) as u8;
    let k2 = (other % 8) as u8;
    let byte = bitmap[(idx / 8) as int];
    if other == idx {
        lemma_or_bit_sets(byte, k);
    } else if idx / 8 == other / 8 {
        if k == k2 {
            lemma_index_from_byte_and_bit(idx, other);
        }
        lemma_or_bit_preserves(byte, k, k2);
    }
}

/// Clearing the bit of `idx` clears it, keeps every other index's bit as
/// it was, and keeps the bitmap's length.
pub proof fn lemma_clear_bit_effect(bitmap: Seq<u8>, idx: u16, other: u16)
    requires
        ((idx / 8) as int) < bitmap.len(),
        ((other / 8) as int) < bitmap.len(),
    ensures
        spec_clear_bit(bitmap, idx).len() == bitmap.len(),
        spec_bit_is_set(spec_clear_bit(bitmap, idx), other) <==> (other != idx && spec_bit_is_set(
            bitmap,
            other,
        )),
{
    let k = (idx % 8) as u8;
    let k2 = (other % 8) as u8;
    let byte = bitmap[(idx / 8) as int];
    if other == idx {
        lemma_and_not_bit_clears(byte, k);
    } else if idx / 8 == other / 8 {
        if k == k2 {
            lemma_index_from_byte_and_bit(idx, other);
        }
        lemma_and_not_bit_preserves(byte, k, k2);
    }
}

/// Setting a list of bits sets exactly those indices' bits, leaves every
/// other index's bit as it was, and keeps the bitmap's length.
pub proof fn lemma_set_bits_effect(bitmap: Seq<u8>, indices: Seq<u16>, other: u16)
    requires
        forall|k: int| 0 <= k < indices.len() ==> ((#[trigger] indices[k] / 8) as int) < bitmap.len(),
        ((other / 8) as int) < bitmap.len(),
    ensures
        spec_set_bits(bitmap, indices).len() == bitmap.len(),
        spec_bit_is_set(spec_set_bits(bitmap, indices), other) <==> (indices.contains(other)
            || spec_bit_is_set(bitmap, other)),
    decreases indices.len(),
{
    if indices.len() > 0 {
        let first = indices[0];
        lemma_set_bit_effect(bitmap, first, other);
        let bm1 = spec_set_bit(bitmap, first);
        assert(forall|k: int|
            0 <= k < indices.drop_first().len() ==> ((#[trigger] indices.drop_first()[k] / 8) as int)
                < bm1.len());
        lemma_set_bits_effect(bm1, indices.drop_first(), other);
        if indices.contains(other) {
            let w = choose|w: int| 0 <= w < indices.len() && indices[w] == other;
            if w == 0 {
                assert(spec_bit_is_set(bm1, other));
            } else {
                assert(indices.drop_first()[w - 1] == other);
                assert(indices.drop_first().contains(other));
            }
        }
        if indices.drop_first().contains(other) {
            let w = choose|w: int| 0 <= w < indices.drop_first().len() && indices.drop_first()[w]
                == other;
            assert(indices[w + 1] == other);
            assert(indices.contains(other));
        }
    }
}

/// The first problem a scan of the claim list finds at or after position
/// `i`, or `None`: an index whose byte lies outside the bitmap, or an
/// index already claimed.
pub open spec fn claim_scan_error(bitmap: Seq<u8>, indices: Seq<u16>, i: int) -> Option<
    ProtocolError,
>
    decreases indices.len() - i,
{
    if i < 0 || i >= indices.len() {
        None
    } else {
        let idx = indices[i];
        if (idx / 8) as int >= bitmap.len() {
            Some(ProtocolError::InvalidAccount)
        } else if spec_bit_is_set(bitmap, idx) {
            Some(ProtocolError::Unauthorized)
        } else {
            claim_scan_error(bitmap, indices, i + 1)
        }
    }
}

/// A clean scan means every listed index is inside the bitmap and still
/// unclaimed.
pub proof fn lemma_clean_scan_bits_unset(bitmap: Seq<u8>, indices: Seq<u16>, i: int)
    requires
        0 <= i <= indices.len(),
        claim_scan_error(bitmap, indices, i) is None,
    ensures
        forall|k: int|
            i <= k < indices.len() ==> ((#[trigger] indices[k] / 8) as int) < bitmap.len()
                && !spec_bit_is_set(bitmap, indices[k]),
    decreases indices.len() - i,
{
    if i < indices.len() {
        lemma_clean_scan_bits_unset(bitmap, indices, i + 1);
    }
}

/// A scan that meets a listed index whose bit is already set cannot come
/// back clean.
pub proof fn lemma_scan_finds_set_bit(bitmap: Seq<u8>, indices: Seq<u16>, idx: u16)
    requires
        indices.contains(idx),
        spec_bit_is_set(bitmap, idx),
    ensures
        claim_scan_error(bitmap, indices, 0) is Some,
{
    if claim_scan_error(bitmap, indices, 0) is None {
        lemma_clean_scan_bits_unset(bitmap, indices, 0);
        let w = choose|w: int| 0 <= w < indices.len() && indices[w] == idx;
        assert(!spec_bit_is_set(bitmap, indices[w]));
    }
}

/// The fixed payout of a copyright claim: the per-index share of the
/// vault's mint-time snapshot, times the number of claimed indices.
pub open spec fn spec_claim_payout(initial: int, total_videos: int, count: int) -> int {
    (initial / total_videos) * count
}

/// The moderator-staking gate every resolution goes through: the stake
/// must be live and at or above the protocol minimum.
pub open spec fn spec_moderator_allowed(stake: ModeratorStake, global: GlobalState) -> bool {
    stake.is_active && stake.stake_amount >= global.moderator_stake_minimum
}

/// The first reason a ticket cannot be created, or `None`.  Copyright
/// claims additionally need the collection, an open claim window, and
/// indices inside the collection's unit count.
pub open spec fn create_ticket_error(
    collection: Option<CollectionState>,
    target_id: Seq<u8>,
    ticket_type: TicketType,
    reason: Seq<u8>,
    claim_indices: Seq<u16>,
    now: i64,
) -> Option<ProtocolError> {
    if target_id.len() > MAX_ID_LEN {
        Some(ProtocolError::StringTooLong)
    } else if reason.len() > MAX_REASON_LEN {
        Some(ProtocolError::StringTooLong)
    } else if ticket_type == TicketType::CopyrightClaim && collection is None {
        Some(ProtocolError::Unauthorized)
    } else if ticket_type == TicketType::CopyrightClaim && now
        >= collection.unwrap().claim_deadline {
        Some(ProtocolError::Unauthorized)
    } else if ticket_type == TicketType::CopyrightClaim && exists|k: int|
        0 <= k < claim_indices.len() && #[trigger] claim_indices[k]
            >= collection.unwrap().total_videos {
        Some(ProtocolError::InvalidAccount)
    } else {
        None
    }
}

/// The collection value behind an optional borrowed record.
pub open spec fn spec_opt_collection(c: Option<&CollectionState>) -> Option<CollectionState> {
    match c {
        Some(r) => Some(*r),
        None => None,
    }
}

/// Opens a moderation ticket.  A copyright claim can only be opened while
/// the collection's claim window is still running and over indices the
/// collection actually has; once created, a ticket stays resolvable even
/// if the window closes during deliberation.
pub fn create_ticket(
    collection: Option<&CollectionState>,
    reporter: u64,
    target_id: Vec<u8>,
    ticket_type: TicketType,
    reason: Vec<u8>,
    claim_indices: Vec<u16>,
    now: i64,
) -> (r: Result<ModTicket, ProtocolError>)
    ensures
        r is Err <==> create_ticket_error(
            spec_opt_collection(collection),
            target_id@,
            ticket_type,
            reason@,
            claim_indices@,
            now,
        ) is Some,
        r is Err ==> r == Err::<ModTicket, ProtocolError>(
            create_ticket_error(
                spec_opt_collection(collection),
                target_id@,
                ticket_type,
                reason@,
                claim_indices@,
                now,
            ).unwrap(),
        ),
        r matches Ok(ticket) ==> ({
            &&& ticket.reporter == reporter
            &&& ticket.target_id@ == target_id@
            &&& ticket.ticket_type == ticket_type
            &&& ticket.reason@ == reason@
            &&& !ticket.resolved
            &&& !ticket.verdict
            &&& ticket.resolver is None
            &&& ticket.created_at == now
            &&& ticket.claim_indices@ == claim_indices@
        }),
{
    if target_id.len() > MAX_ID_LEN {
        return Err(ProtocolError::StringTooLong);
    }
    if reason.len() > MAX_REASON_LEN {
        return Err(ProtocolError::StringTooLong);
    }
    if matches!(ticket_type, TicketType::CopyrightClaim) {
        let c = match collection {
            Some(c) => c,
            None => {
                return Err(ProtocolError::Unauthorized);
            },
        };
        if now >= c.claim_deadline {
            return Err(ProtocolError::Unauthorized);
        }
        let ghost col = *c;
        let mut k: usize = 0;
        while k < claim_indices.len()
            invariant
                k <= claim_indices@.len(),
                forall|j: int| 0 <= j < k ==> #[trigger] claim_indices@[j] < c.total_videos,
                *c == col,
                spec_opt_collection(collection) == Some(col),
                target_id@.len() <= MAX_ID_LEN,
                reason@.len() <= MAX_REASON_LEN,
                ticket_type == TicketType::CopyrightClaim,
                now < col.claim_deadline,
            decreases claim_indices@.len() - k,
        {
            if claim_indices[k] >= c.total_videos {
                return Err(ProtocolError::InvalidAccount);
            }
            k += 1;
        }
    }
    Ok(
        ModTicket {
            reporter,
            target_id,
            ticket_type,
            reason,
            resolved: false,
            verdict: false,
            resolver: None,
            created_at: now,
            claim_indices,
        },
    )
}

/// Resolves a plain ticket: records the verdict and the resolving
/// moderator, once.  The returned flag tells the host whether an approved
/// content report asks for the collection to be blacklisted (the host
/// applies it with `blacklist_collection` when it has the record).
pub fn resolve_ticket(
    ticket: &mut ModTicket,
    moderator_stake: &ModeratorStake,
    global: &GlobalState,
    moderator: u64,
    verdict: bool,
) -> (r: Result<bool, ProtocolError>)
    ensures
        r is Err <==> !spec_moderator_allowed(*moderator_stake, *global) || old(ticket).resolved,
        r is Err ==> *final(ticket) == *old(ticket) && r == Err::<bool, ProtocolError>(
            if !spec_moderator_allowed(*moderator_stake, *global) {
                ProtocolError::InsufficientModeratorStake
            } else {
                ProtocolError::TicketAlreadyResolved
            },
        ),
        r matches Ok(blacklist) ==> ({
            &&& *final(ticket) == (ModTicket {
                resolved: true,
                verdict,
                resolver: Some(moderator),
                ..*old(ticket)
            })
            &&& blacklist == (old(ticket).ticket_type == TicketType::ContentReport && verdict)
        }),
{
    if !moderator_stake.is_active || moderator_stake.stake_amount
        < global.moderator_stake_minimum {
        return Err(ProtocolError::InsufficientModeratorStake);
    }
    if ticket.resolved {
        return Err(ProtocolError::TicketAlreadyResolved);
    }
    let blacklist = matches!(ticket.ticket_type, TicketType::ContentReport) && verdict;
    ticket.resolved = true;
    ticket.verdict = verdict;
    ticket.resolver = Some(moderator);
    Ok(blacklist)
}

/// Marks a collection blacklisted, leaving everything else untouched;
/// the flag gates every future purchase.
pub fn blacklist_collection(collection: &mut CollectionState)
    ensures
        *final(collection) == (CollectionState { is_blacklisted: true, ..*old(collection) }),
{
    collection.is_blacklisted = true;
}

/// The first reason a copyright-claim resolution is refused, or `None`.
pub open spec fn copyright_claim_error(
    ticket: ModTicket,
    collection: CollectionState,
    stake: ModeratorStake,
    global: GlobalState,
    verdict: bool,
) -> Option<ProtocolError> {
    let initial = collection.claim_vault_initial_amount as int;
    let videos = collection.total_videos as int;
    let count = ticket.claim_indices@.len() as int;
    if !spec_moderator_allowed(stake, global) {
        Some(ProtocolError::InsufficientModeratorStake)
    } else if ticket.ticket_type != TicketType::CopyrightClaim {
        Some(ProtocolError::Unauthorized)
    } else if ticket.resolved {
        Some(ProtocolError::TicketAlreadyResolved)
    } else if !verdict {
        None
    } else if !collection.tokens_minted || collection.claim_vault_initial_amount == 0 {
        Some(ProtocolError::InvalidFeeConfig)
    } else if ticket.claim_indices@.len() == 0 {
        Some(ProtocolError::InvalidFeeConfig)
    } else if claim_scan_error(collection.claimed_bitmap@, ticket.claim_indices@, 0) is Some {
        claim_scan_error(collection.claimed_bitmap@, ticket.claim_indices@, 0)
    } else if collection.total_videos == 0 {
        Some(ProtocolError::MathOverflow)
    } else if spec_claim_payout(initial, videos, count) > u64::MAX {
        Some(ProtocolError::MathOverflow)
    } else if spec_claim_payout(initial, videos, count) == 0 {
        Some(ProtocolError::InsufficientFunds)
    } else {
        None
    }
}

/// Resolves a copyright claim.  On approval, every claimed index must
/// still be unclaimed — one already-set bit fails the whole operation
/// with nothing changed — and the payout is the fixed per-index share of
/// the vault's mint-time snapshot times the number of indices.  The bits
/// are then set, never to be cleared, and the host transfers the returned
/// payout from the claim vault to the claimant in the same atomic step.
/// A rejection records the verdict and touches nothing else.  The guard
/// runs against the bitmap as it stood before the ticket, so an index
/// repeated inside one ticket's own list is counted once per mention.
pub fn resolve_copyright_claim(
    ticket: &mut ModTicket,
    collection: &mut CollectionState,
    moderator_stake: &ModeratorStake,
    global: &GlobalState,
    moderator: u64,
    verdict: bool,
) -> (r: Result<u64, ProtocolError>)
    ensures
        r is Err <==> copyright_claim_error(
            *old(ticket),
            *old(collection),
            *moderator_stake,
            *global,
            verdict,
        ) is Some,
        r is Err ==> *final(ticket) == *old(ticket) && *final(collection) == *old(collection) && r
            == Err::<u64, ProtocolError>(
            copyright_claim_error(
                *old(ticket),
                *old(collection),
                *moderator_stake,
                *global,
                verdict,
            ).unwrap(),
        ),
        r is Ok ==> *final(ticket) == (ModTicket {
            resolved: true,
            verdict,
            resolver: Some(moderator),
            ..*old(ticket)
        }),
        r is Ok && !verdict ==> *final(collection) == *old(collection) && r == Ok::<
            u64,
            ProtocolError,
        >(0),
        r matches Ok(payout) ==> verdict ==> ({
            let initial = old(collection).claim_vault_initial_amount as int;
            let videos = old(collection).total_videos as int;
            let count = old(ticket).claim_indices@.len() as int;
            &&& payout == spec_claim_payout(initial, videos, count)
            &&& payout > 0
            &&& *final(collection) == (CollectionState {
                claimed_bitmap: final(collection).claimed_bitmap,
                ..*old(collection)
            })
            &&& final(collection).claimed_bitmap@ == spec_set_bits(
                old(collection).claimed_bitmap@,
                old(ticket).claim_indices@,
            )
        }),
{
    if !moderator_stake.is_active || moderator_stake.stake_amount
        < global.moderator_stake_minimum {
        return Err(ProtocolError::InsufficientModeratorStake);
    }
    if !matches!(ticket.ticket_type, TicketType::CopyrightClaim) {
        return Err(ProtocolError::Unauthorized);
    }
    if ticket.resolved {
        return Err(ProtocolError::TicketAlreadyResolved);
    }

    if !verdict {
        ticket.resolved = true;
        ticket.verdict = false;
        ticket.resolver = Some(moderator);
        return Ok(0);
    }

    if !collection.tokens_minted || collection.claim_vault_initial_amount == 0 {
        return Err(ProtocolError::InvalidFeeConfig);
    }
    let count = ticket.claim_indices.len();
    if count == 0 {
        return Err(ProtocolError::InvalidFeeConfig);
    }

    let ghost bitmap0 = collection.claimed_bitmap@;
    let ghost indices = ticket.claim_indices@;
    let mut k: usize = 0;
    while k < count
        invariant
            k <= count,
            count == indices.len(),
            count > 0,
            ticket.claim_indices@ == indices,
            *ticket == *old(ticket),
            *collection == *old(collection),
            bitmap0 == collection.claimed_bitmap@,
            claim_scan_error(bitmap0, indices, 0) == claim_scan_error(bitmap0, indices, k as int),
            spec_moderator_allowed(*moderator_stake, *global),
            old(ticket).ticket_type == TicketType::CopyrightClaim,
            !old(ticket).resolved,
            verdict,
            old(collection).tokens_minted,
            old(collection).claim_vault_initial_amount > 0,
        decreases count - k,
    {
        let idx = ticket.claim_indices[k];
        let byte_idx = (idx / 8) as usize;
        if byte_idx >= collection.claimed_bitmap.len() {
            return Err(ProtocolError::InvalidAccount);
        }
        let bit_idx = (idx % 8) as u8;
        let is_claimed = (collection.claimed_bitmap[byte_idx] >> bit_idx) & 1;
        proof {
            let byte = bitmap0[byte_idx as int];
            assert((byte >> bit_idx) & 1 == 0 || (byte >> bit_idx) & 1 == 1) by (bit_vector);
        }
        if is_claimed != 0 {
            return Err(ProtocolError::Unauthorized);
        }
        k += 1;
    }

    if collection.total_videos == 0 {
        return Err(ProtocolError::MathOverflow);
    }
    let per_video_share = collection.claim_vault_initial_amount / (collection.total_videos as u64);
    let payout = match per_video_share.checked_mul(count as u64) {
        Some(v) => v,
        None => {
            return Err(ProtocolError::MathOverflow);
        },
    };
    if payout == 0 {
        return Err(ProtocolError::InsufficientFunds);
    }

    proof {
        lemma_clean_scan_bits_unset(bitmap0, indices, 0);
        assert(indices.skip(0) =~= indices);
    }
    let mut j: usize = 0;
    while j < count
        invariant
            j <= count,
            count == indices.len(),
            ticket.claim_indices@ == indices,
            *ticket == *old(ticket),
            collection.claimed_bitmap@.len() == bitmap0.len(),
            *collection == (CollectionState {
                claimed_bitmap: collection.claimed_bitmap,
                ..*old(collection)
            }),
            bitmap0 == old(collection).claimed_bitmap@,
            forall|t: int|
                0 <= t < indices.len() ==> ((#[trigger] indices[t] / 8) as int) < bitmap0.len(),
            spec_set_bits(bitmap0, indices) == spec_set_bits(
                collection.claimed_bitmap@,
                indices.skip(j as int),
            ),
        decreases count - j,
    {
        let idx = ticket.claim_indices[j];
        let byte_idx = (idx / 8) as usize;
        let bit_idx = (idx % 8) as u8;
        let ghost before = collection.claimed_bitmap@;
        let b = collection.claimed_bitmap[byte_idx];
        collection.claimed_bitmap.set(byte_idx, b | (1u8 << bit_idx));
        proof {
            assert(collection.claimed_bitmap@ == spec_set_bit(before, idx));
            assert(indices.skip(j as int)[0] == idx);
            assert(indices.skip(j as int).drop_first() =~= indices.skip(j as int + 1));
        }
        j += 1;
    }
    proof {
        assert(indices.skip(count as int).len() == 0);
    }

    ticket.resolved = true;
    ticket.verdict = true;
    ticket.resolver = Some(moderator);
    Ok(payout)
}

/// The first reason a censorship resolution is refused, or `None`.
pub open spec fn cid_censorship_error(
    ticket: ModTicket,
    collection: CollectionState,
    stake: ModeratorStake,
    global: GlobalState,
    censored_cid: Seq<u8>,
    video_index: u16,
) -> Option<ProtocolError> {
    if !spec_moderator_allowed(stake, global) {
        Some(ProtocolError::InsufficientModeratorStake)
    } else if ticket.ticket_type != TicketType::CidCensorship {
        Some(ProtocolError::Unauthorized)
    } else if ticket.resolved {
        Some(ProtocolError::TicketAlreadyResolved)
    } else if video_index >= collection.total_videos {
        Some(ProtocolError::InvalidAccount)
    } else if ((video_index / 8) as int) >= collection.censored_bitmap@.len() {
        Some(ProtocolError::InvalidAccount)
    } else if censored_cid.len() > MAX_URL_LEN {
        Some(ProtocolError::StringTooLong)
    } else {
        None
    }
}

/// Resolves a censorship ticket over one content unit: an approval sets
/// the unit's censor bit, a rejection clears it, and the verdict is
/// recorded either way.
pub fn resolve_cid_censorship(
    ticket: &mut ModTicket,
    collection: &mut CollectionState,
    moderator_stake: &ModeratorStake,
    global: &GlobalState,
    moderator: u64,
    verdict: bool,
    censored_cid: Vec<u8>,
    video_index: u16,
) -> (r: Result<(), ProtocolError>)
    ensures
        r is Err <==> cid_censorship_error(
            *old(ticket),
            *old(collection),
            *moderator_stake,
            *global,
            censored_cid@,
            video_index,
        ) is Some,
        r is Err ==> *final(ticket) == *old(ticket) && *final(collection) == *old(collection) && r
            == Err::<(), ProtocolError>(
            cid_censorship_error(
                *old(ticket),
                *old(collection),
                *moderator_stake,
                *global,
                censored_cid@,
                video_index,
            ).unwrap(),
        ),
        r is Ok ==> ({
            &&& *final(ticket) == (ModTicket {
                resolved: true,
                verdict,
                resolver: Some(moderator),
                ..*old(ticket)
            })
            &&& *final(collection) == (CollectionState {
                censored_bitmap: final(collection).censored_bitmap,
                ..*old(collection)
            })
            &&& final(collection).censored_bitmap@ == if verdict {
                spec_set_bit(old(collection).censored_bitmap@, video_index)
            } else {
                spec_clear_bit(old(collection).censored_bitmap@, video_index)
            }
        }),
{
    if !moderator_stake.is_active || moderator_stake.stake_amount
        < global.moderator_stake_minimum {
        return Err(ProtocolError::InsufficientModeratorStake);
    }
    if !matches!(ticket.ticket_type, TicketType::CidCensorship) {
        return Err(ProtocolError::Unauthorized);
    }
    if ticket.resolved {
        return Err(ProtocolError::TicketAlreadyResolved);
    }
    if video_index >= collection.total_videos {
        return Err(ProtocolError::InvalidAccount);
    }
    let byte_idx = (video_index / 8) as usize;
    if byte_idx >= collection.censored_bitmap.len() {
        return Err(ProtocolError::InvalidAccount);
    }
    if censored_cid.len() > MAX_URL_LEN {
        return Err(ProtocolError::StringTooLong);
    }

    let bit_idx = (video_index % 8) as u8;
    let b = collection.censored_bitmap[byte_idx];
    if verdict {
        collection.censored_bitmap.set(byte_idx, b | (1u8 << bit_idx));
    } else {
        collection.censored_bitmap.set(byte_idx, b & !(1u8 << bit_idx));
    }
    ticket.resolved = true;
    ticket.verdict = verdict;
    ticket.resolver = Some(moderator);
    Ok(())
}

} // verus!
