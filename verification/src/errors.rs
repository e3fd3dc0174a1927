//! The engine's typed failure values.
//!
//! Every operation rejects bad input before any state mutation and reports
//! the reason as one of these variants; the host maps them onto its own
//! error channel.

use vstd::prelude::*;

verus! {

/// Why a settlement operation was refused.  No operation that returns one
/// of these has changed any state.
#[derive(Clone, Copy, Debug, PartialEq, Eq, Structural)]
pub enum ProtocolError {
    /// The caller is not allowed to perform this action, or a recorded
    /// identity does not match the one required.
    Unauthorized,
    /// A text field exceeds its maximum allowed byte length.
    StringTooLong,
    /// A fee rate or peer-list shape is invalid.
    InvalidFeeConfig,
    /// A checked arithmetic operation overflowed or underflowed.
    MathOverflow,
    /// No shares exist to distribute a reward over.
    NoShares,
    /// The price oracle reported a stale or non-positive price.
    InvalidOraclePrice,
    /// An amount is zero, or a holding does not cover the requested amount.
    InsufficientFunds,
    /// The moderation ticket was already resolved.
    TicketAlreadyResolved,
    /// The moderator's stake is missing, inactive or below the minimum.
    InsufficientModeratorStake,
    /// The referenced collection does not exist.
    CollectionNotFound,
    /// The view right has expired.
    ViewRightsExpired,
    /// The referenced performer escrow does not exist.
    PerformerEscrowNotFound,
    /// The user account has not been initialized.
    UserAccountNotInitialized,
    /// The escrow's release window has closed.
    EscrowExpired,
    /// The escrow's release window is still open, so it cannot be burned.
    EscrowNotExpired,
    /// The creator provided less initial liquidity than required.
    InsufficientInitialLiquidity,
    /// The peer list is longer than the hard bound allows.
    PeerListTooLong,
    /// A referenced record or index is malformed or out of bounds.
    InvalidAccount,
    /// The collection's video limit has been reached.
    VideoLimitExceeded,
}

} // verus!
