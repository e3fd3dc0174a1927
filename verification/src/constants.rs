//! Protocol constants: time windows, split percentages and the fixed-point
//! precision used by every reward-per-unit accumulator.

use vstd::prelude::*;

verus! {

/// Seconds in one day.
pub const SECONDS_IN_DAY: i64 = 86400;

/// How long a purchased view right stays valid (90 days).
pub const VIEW_RIGHTS_VALIDITY_SECONDS: i64 = 90 * 86400;

/// Vesting window after which unclaimed claim-vault tokens may be burned
/// (6 months of 30 days).
pub const CLAIM_VAULT_VESTING_SECONDS: i64 = 180 * 86400;

/// Window during which the buyer may release an escrow; afterwards anyone
/// may burn it (24 hours).
pub const ESCROW_EXPIRY_SECONDS: i64 = 24 * 3600;

/// Share of a purchase (after the protocol fee) credited to the
/// collection-token staking pool, in percent.
pub const SPLIT_TO_STAKERS: u64 = 50;

/// Share of a purchase (after the protocol fee) locked in the peer escrow,
/// in percent.
pub const SPLIT_TO_PEERS_ESCROW: u64 = 50;

/// Denominator for fee rates expressed in basis points.
pub const FEE_DENOMINATOR: u64 = 10000;

/// Harvested-fee share credited to hosting peers (pinners), in percent.
pub const SPLIT_PINNER: u64 = 50;

/// Harvested-fee share paid to the collection owner, in percent.
pub const SPLIT_OWNER: u64 = 20;

/// Harvested-fee share paid into the performer escrow, in percent.
pub const SPLIT_PERFORMER: u64 = 20;

/// Harvested-fee share paid to the staker treasury, in percent.
pub const SPLIT_STAKERS: u64 = 10;

/// Fixed-point scale of every reward-per-unit accumulator.
pub const REWARD_PRECISION: u128 = 1000000000000;

/// Hard upper bound on the peer list accepted by an escrow release, keeping
/// the one linear loop in the engine at a constant worst-case cost.
pub const MAX_PEER_LIST_LENGTH: usize = 16;

/// Maximum byte length of a collection identifier.
pub const MAX_ID_LEN: usize = 32;

/// Maximum byte length of a stored URL.
pub const MAX_URL_LEN: usize = 200;

/// Maximum byte length of a collection name.
pub const MAX_NAME_LEN: usize = 50;

/// Maximum byte length of a user's off-chain metadata key.
pub const MAX_IPNS_KEY_LEN: usize = 100;

/// Maximum byte length of a moderation ticket's reason text.
pub const MAX_REASON_LEN: usize = 200;

/// Maximum byte length of an encrypted content identifier in a reveal.
pub const MAX_ENCRYPTED_CID_LEN: usize = 200;

} // verus!
