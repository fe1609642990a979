//! The records that the protocol keeps, and its errors.
use vstd::prelude::*;
use crate::{MAX_BET_AMOUNT, MIN_BET_AMOUNT};

verus! {

/// The operator's record: who runs the game and how its escrow key is derived.
#[derive(Clone, Copy, Debug, PartialEq, Eq)]
pub struct GameConfig {
    pub authority: [u8; 32],
    pub treasury_bump: u8,
}

/// One player's wager, from commit until it is revealed.
#[derive(Clone, Copy, Debug, PartialEq, Eq)]
pub struct Commitment {
    pub player: [u8; 32],
    pub commitment_hash: [u8; 32],
    pub bet_amount: u64,
    /// When the commitment was made, in seconds.
    pub timestamp: i64,
    pub revealed: bool,
    pub bump: u8,
    pub nonce: u64,
    pub randomness_requested: bool,
}

/// Whether an operator's escrow takes entropy from an outside feed.
#[derive(Clone, Copy, Debug, PartialEq, Eq)]
pub struct RandomnessClient {
    pub authority: [u8; 32],
    pub bump: u8,
    pub use_switchboard: bool,
}

#[derive(Clone, Copy, Debug, PartialEq, Eq, Structural)]
pub enum SlotMachineError {
    AlreadyRevealed,
    InsufficientDelay,
    InvalidReveal,
    InvalidPlayer,
    RandomnessAlreadyRequested,
    RandomnessNotRequested,
    BetTooLow,
    BetTooHigh,
    /// The escrow cannot pay what is owed.
    InsufficientFunds,
    /// A payout does not fit in 64 bits.
    Overflow,
    /// A live commitment already holds this player and nonce.
    CommitmentInUse,
    /// No commitment is held for this player and nonce.
    CommitmentNotFound,
}

/// The three states of a commitment's lifecycle.
#[derive(Clone, Copy, Debug, PartialEq, Eq, Structural)]
pub enum Phase {
    Pending,
    RandomnessRequested,
    Revealed,
}

impl Commitment {
    /// A commitment as `commit` makes it: its wager lies within the bounds.
    pub open spec fn wf(self) -> bool {
        MIN_BET_AMOUNT <= self.bet_amount <= MAX_BET_AMOUNT
    }

    pub open spec fn spec_phase(self) -> Phase {
        if self.revealed {
            Phase::Revealed
        } else if self.randomness_requested {
            Phase::RandomnessRequested
        } else {
            Phase::Pending
        }
    }

    /// Where the commitment stands in its lifecycle.
    pub fn phase(&self) -> (r: Phase)
        ensures
            r == self.spec_phase(),
    {
        if self.revealed {
            Phase::Revealed
        } else if self.randomness_requested {
            Phase::RandomnessRequested
        } else {
            Phase::Pending
        }
    }
}

} // verus!
