//! A commit-reveal wager protocol: a player commits to the digest of a secret,
//! reveals it after a delay, and the revealed secret mixed with later entropy
//! picks a payout tier.
use vstd::prelude::*;

pub mod encoding;
pub mod digest;
pub mod state;
pub mod payout;
pub mod protocol;
pub mod laws;
pub mod store;

verus! {

/// Minimum number of seconds between a commitment and any use of it.
pub const MIN_DELAY_SECONDS: i64 = 2;

/// Smallest accepted wager, in base units (0.01 of the native unit).
pub const MIN_BET_AMOUNT: u64 = 10_000_000;

/// Largest accepted wager, in base units (1.0 of the native unit).
pub const MAX_BET_AMOUNT: u64 = 1_000_000_000;

} // verus!
