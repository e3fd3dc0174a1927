//! Value-settlement core of a content-distribution marketplace.
//!
//! Buyers pay for access to a content collection; the payment is split
//! between a protocol fee, a collection-token staking pool, and an escrow
//! earmarked for the peers who deliver the content.  The escrow is released
//! by the buyer to those peers in proportion to a buyer-assigned trust
//! weight, or burned after a fixed expiry window.  Around this sits a family
//! of proportional-reward subsystems (staking rewards, pinner share rewards,
//! fee-harvest splits, proportional copyright-claim payouts) that all follow
//! the same precision-scaled reward-per-unit accumulator pattern.
//!
//! This crate holds only the settlement logic, on plain values: identities
//! and content digests appear here as opaque `u64` tokens that the engine
//! only compares for equality, amounts are `u64`, scaled accumulators are
//! `u128`, and timestamps are `i64` seconds.  The host that embeds the
//! engine owns the actual record store and the value-transfer primitive
//! (debit one holding, credit another, atomically); every operation here
//! validates its inputs, mutates the records it is given, and returns the
//! transfer amounts the host must carry out.  No operation leaves a partial
//! state change behind on failure.

pub mod access;
pub mod admin;
pub mod constants;
pub mod errors;
pub mod laws;
pub mod math;
pub mod moderation;
pub mod performer;
pub mod pinner;
pub mod rewards;
pub mod staking;
pub mod state;
pub mod treasury;
pub mod user;
pub mod video;
