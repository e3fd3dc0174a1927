//! The persisted record types of the settlement engine.
//!
//! Identities (wallets, collections, mints, holdings) and content digests
//! are opaque to the engine: it only ever compares them for equality.  They
//! are therefore modeled as plain `u64` tokens, which the host maps onto
//! its real keys and digests.  Amounts and counts are unsigned 64-bit,
//! scaled accumulators are unsigned 128-bit, timestamps are `i64` seconds,
//! and text fields are byte strings bounded by the limits in `constants`.

use vstd::prelude::*;
use crate::constants::{MAX_ID_LEN, MAX_IPNS_KEY_LEN, MAX_NAME_LEN, MAX_REASON_LEN, MAX_URL_LEN};

verus! {

/// Global protocol configuration, controlled by the admin until updates are
/// permanently disabled.
#[derive(Clone, Debug, PartialEq, Eq)]
pub struct GlobalState {
    /// Identity allowed to update this record and to act as super-moderator.
    pub admin: u64,
    /// Holding that receives purchase fees.
    pub treasury: u64,
    /// URL of the indexer API (informational).
    pub indexer_api_url: Vec<u8>,
    /// URL of the node registry (informational).
    pub node_registry_url: Vec<u8>,
    /// Minimum ecosystem-token stake required to act as a moderator.
    pub moderator_stake_minimum: u64,
    /// Mint of the ecosystem token.
    pub capgm_mint: u64,
    /// Purchase fee in basis points (at most 10000).
    pub fee_basis_points: u16,
    /// One-way lock: once set, the record can never be updated again.
    pub updates_disabled: bool,
}

impl GlobalState {
    /// Field bounds that `initialize_protocol` establishes and every update
    /// preserves.
    pub open spec fn wf(self) -> bool {
        &&& self.indexer_api_url@.len() <= MAX_URL_LEN
        &&& self.node_registry_url@.len() <= MAX_URL_LEN
        &&& self.fee_basis_points <= 10000
    }
}

/// A user's profile record.
#[derive(Clone, Debug, PartialEq, Eq)]
pub struct UserAccount {
    /// Wallet that owns the profile.
    pub authority: u64,
    /// Key pointing to off-chain profile metadata.
    pub ipns_key: Vec<u8>,
    /// Presence flag maintained off-chain.
    pub is_online: bool,
}

impl UserAccount {
    /// Field bounds established at initialization.
    pub open spec fn wf(self) -> bool {
        self.ipns_key@.len() <= MAX_IPNS_KEY_LEN
    }
}

/// A content collection: ownership, content digest, moderation state, and
/// the balances and accumulators of its reward subsystems.
#[derive(Clone, Debug, PartialEq, Eq)]
pub struct CollectionState {
    /// Collection owner.
    pub owner: u64,
    /// Unique identifier slug, at most `MAX_ID_LEN` bytes.
    pub collection_id: Vec<u8>,
    /// Digest of the collection's content reference; purchases must present
    /// a matching digest.
    pub cid_hash: u64,
    /// Mint of the collection token.
    pub mint: u64,
    /// External liquidity-pool address for the collection token.
    pub pool_address: u64,
    /// Holding of the one-time claim-vault reserve.
    pub claim_vault: u64,
    /// Timestamp after which unclaimed vault tokens may be burned and
    /// before which copyright-claim tickets may be opened.
    pub claim_deadline: i64,
    /// Aggregate trust weight ever released to this collection's peers.
    pub total_trust_score: u64,
    /// Moderation toggle; a blacklisted collection cannot be purchased.
    pub is_blacklisted: bool,
    /// Display name, at most `MAX_NAME_LEN` bytes.
    pub name: Vec<u8>,
    /// Minimum holdings value, in USD cents, required for a view right.
    pub access_threshold_usd: u64,
    /// Price feed identity for the collection token.
    pub oracle_feed: u64,
    /// Accounted fee share of the collection owner.
    pub owner_reward_balance: u64,
    /// Accounted fee share of the ecosystem-token stakers.
    pub staker_reward_balance: u64,
    /// One-time flag: collection tokens can only ever be minted once.
    pub tokens_minted: bool,
    /// Number of content units the claim vault is divided over.
    pub total_videos: u16,
    /// Snapshot of the claim vault taken at mint time; the per-unit payout
    /// of copyright claims is fixed against this value.
    pub claim_vault_initial_amount: u64,
    /// One bit per video index: set once a copyright claim paid it out,
    /// never cleared.
    pub claimed_bitmap: Vec<u8>,
    /// One bit per video index: set while the unit is censored.
    pub censored_bitmap: Vec<u8>,
    /// Total hosting shares registered by pinners.
    pub total_shares: u64,
    /// Reward-per-share accumulator of the pinner ledger, scaled by
    /// `REWARD_PRECISION`; never decreases.
    pub acc_reward_per_share: u128,
    /// Tokens accounted to the pinner ledger and not yet claimed.
    pub reward_pool_balance: u64,
    /// Number of videos uploaded so far.
    pub video_count: u32,
    /// Upper bound on `video_count`.
    pub max_video_limit: u32,
}

impl CollectionState {
    /// How many bitmap bytes a collection with `total_videos` units needs.
    pub open spec fn bitmap_len(total_videos: u16) -> int {
        (total_videos + 7) / 8
    }

    /// Shape every collection record keeps for its whole life: text bounds,
    /// at least one video unit, and bitmaps sized to the unit count.
    pub open spec fn wf(self) -> bool {
        &&& self.collection_id@.len() <= MAX_ID_LEN
        &&& self.name@.len() <= MAX_NAME_LEN
        &&& self.total_videos > 0
        &&& self.claimed_bitmap@.len() == Self::bitmap_len(self.total_videos)
        &&& self.censored_bitmap@.len() == Self::bitmap_len(self.total_videos)
    }
}

/// A time-limited right to view a collection, granted against token
/// holdings rather than an escrowed purchase.
#[derive(Clone, Copy, Debug, PartialEq, Eq, Structural)]
pub struct ViewRights {
    /// Wallet holding the right.
    pub owner: u64,
    /// Collection the right is for.
    pub collection: u64,
    /// When the right was minted or last renewed.
    pub minted_at: i64,
    /// When the right expires.
    pub expires_at: i64,
}

/// A per-purchase value lock: the peer half of a purchase waits here for
/// the buyer to release it, or for the expiry window to pass.
#[derive(Clone, Copy, Debug, PartialEq, Eq, Structural)]
pub struct AccessEscrow {
    /// The buyer; only they can release the lock.
    pub purchaser: u64,
    /// The collection being bought.
    pub collection: u64,
    /// Mint of the access token issued with the purchase.
    pub access_nft_mint: u64,
    /// Digest of the content reference, fixed at purchase time.
    pub cid_hash: u64,
    /// Locked amount still waiting for release; only ever decreases, and an
    /// escrow at zero is terminal.
    pub amount_locked: u64,
    /// Creation time; the expiry window is measured from here.
    pub created_at: i64,
    /// Whether a pinner has revealed the content identifier.
    pub is_cid_revealed: bool,
}

/// A pinner's encrypted reveal of a content identifier to a purchaser.
#[derive(Clone, Debug, PartialEq, Eq)]
pub struct CidReveal {
    /// The escrow the reveal is for.
    pub escrow: u64,
    /// The peer who revealed.
    pub pinner: u64,
    /// Content identifier encrypted to the purchaser's key.
    pub encrypted_cid: Vec<u8>,
    /// When the reveal happened.
    pub revealed_at: i64,
}

/// Lifetime trust record of a content-serving peer; both counters are
/// monotonically non-decreasing.
#[derive(Clone, Copy, Debug, PartialEq, Eq, Structural)]
pub struct PeerTrustState {
    /// The peer's wallet.
    pub peer_wallet: u64,
    /// Number of released escrows this peer was paid from.
    pub total_successful_serves: u64,
    /// Sum of the trust weights buyers assigned to this peer.
    pub trust_score: u64,
    /// Last time the peer was paid, for pruning inactive nodes.
    pub last_active: i64,
}

/// A peer's hosting registration for one collection; its shares are fixed
/// at registration.
#[derive(Clone, Copy, Debug, PartialEq, Eq, Structural)]
pub struct PinnerState {
    /// Collection being hosted.
    pub collection: u64,
    /// The hosting peer.
    pub pinner: u64,
    /// Whether the registration is live.
    pub is_active: bool,
    /// Hosting shares, fixed at registration.
    pub shares: u64,
    /// Accumulator checkpoint: rewards accrued before this point are not
    /// claimable by this peer.
    pub reward_debt: u128,
}

/// Accounted balance waiting for a collection's performer to claim it.
#[derive(Clone, Copy, Debug, PartialEq, Eq, Structural)]
pub struct PerformerEscrow {
    /// Collection the escrow belongs to.
    pub collection: u64,
    /// Wallet allowed to claim.
    pub performer_wallet: u64,
    /// Accounted amount waiting to be claimed.
    pub balance: u64,
}

/// What a moderation ticket is about.
#[derive(Clone, Copy, Debug, PartialEq, Eq, Structural)]
pub enum TicketType {
    /// Flagging illegal or terms-violating content; approval blacklists the
    /// collection.
    ContentReport,
    /// An intellectual-property dispute; approval pays the claimant a fixed
    /// per-unit share of the claim vault.
    CopyrightClaim,
    /// Censoring one content unit; approval sets its censor bit.
    CidCensorship,
}

/// A moderation ticket, opened by a reporter and resolved once by a staked
/// moderator.
#[derive(Clone, Debug, PartialEq, Eq)]
pub struct ModTicket {
    /// Who opened the ticket.
    pub reporter: u64,
    /// Identifier of the content being reported.
    pub target_id: Vec<u8>,
    /// What the ticket is about.
    pub ticket_type: TicketType,
    /// Free-text reason, at most `MAX_REASON_LEN` bytes.
    pub reason: Vec<u8>,
    /// Becomes true when a moderator resolves the ticket, and stays true.
    pub resolved: bool,
    /// The outcome: `true` upholds the ticket, `false` dismisses it.
    pub verdict: bool,
    /// Moderator who resolved the ticket, if any.
    pub resolver: Option<u64>,
    /// When the ticket was opened.
    pub created_at: i64,
    /// For copyright claims: the video indices being claimed.
    pub claim_indices: Vec<u16>,
}

impl ModTicket {
    /// Field bounds established when the ticket is created.
    pub open spec fn wf(self) -> bool {
        &&& self.target_id@.len() <= MAX_ID_LEN
        &&& self.reason@.len() <= MAX_REASON_LEN
    }
}

/// A moderator's ecosystem-token stake.
#[derive(Clone, Copy, Debug, PartialEq, Eq, Structural)]
pub struct ModeratorStake {
    /// The moderator's wallet.
    pub moderator: u64,
    /// Staked amount.
    pub stake_amount: u64,
    /// Whether the stake is live; slashing deactivates it.
    pub is_active: bool,
    /// How many times this moderator has been slashed.
    pub slash_count: u32,
}

/// Per-collection pool of staked collection tokens, accruing rewards from
/// access purchases.
#[derive(Clone, Copy, Debug, PartialEq, Eq, Structural)]
pub struct CollectionStakingPool {
    /// Collection the pool is for.
    pub collection: u64,
    /// Sum of all live staker positions.
    pub total_staked: u64,
    /// Reward-per-token accumulator, scaled by `REWARD_PRECISION`; never
    /// decreases.
    pub reward_per_token: u128,
}

/// One staker's position in a collection's staking pool.
#[derive(Clone, Copy, Debug, PartialEq, Eq, Structural)]
pub struct StakerPosition {
    /// The staking wallet.
    pub staker: u64,
    /// Collection being staked.
    pub collection: u64,
    /// Collection tokens currently staked.
    pub amount_staked: u64,
    /// Accumulator checkpoint: rewards accrued before this point are not
    /// claimable by this position.
    pub reward_debt: u128,
}

/// One uploaded video of a collection.
#[derive(Clone, Debug, PartialEq, Eq)]
pub struct VideoState {
    /// Collection the video belongs to.
    pub collection: u64,
    /// Identifier of the video, at most `MAX_ID_LEN` bytes.
    pub video_id: Vec<u8>,
    /// Content identifier of the video data.
    pub root_cid: Vec<u8>,
    /// Performer credited for this video, if any.
    pub performer_wallet: Option<u64>,
    /// When the video was uploaded.
    pub uploaded_at: i64,
}

impl VideoState {
    /// Field bounds established at upload.
    pub open spec fn wf(self) -> bool {
        &&& self.video_id@.len() <= MAX_ID_LEN
        &&& self.root_cid@.len() <= MAX_URL_LEN
    }
}

} // verus!
