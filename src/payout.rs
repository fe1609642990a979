//! The draw, the tier table and the settlement amount.
use vstd::prelude::*;
use crate::encoding::{le_u64_value, read_u64_le};
use crate::state::SlotMachineError;

verus! {

/// A payout tier. The table is read from the top: the first tier whose
/// exclusive lower bound lies below the draw wins.
///
/// | draw above | multiplier | label        |
/// |------------|------------|--------------|
/// | 99.5       | 25         | "JACKPOT"    |
/// | 98         | 10         | "Big Win"    |
/// | 95         | 6          | "Great"      |
/// | 90         | 3          | "Nice"       |
/// | 80         | 2          | "Win"        |
/// | 65         | 1          | "Break Even" |
/// | otherwise  | 0          | "Try Again"  |
#[derive(Clone, Copy, Debug, PartialEq, Eq, Structural)]
pub enum Tier {
    Jackpot,
    BigWin,
    Great,
    Nice,
    Win,
    BreakEven,
    TryAgain,
}

/// The tier that the table gives a draw. On whole numbers, a draw above
/// 99.5 is a draw of 100 or more.
pub open spec fn tier_of(draw: int) -> Tier {
    if draw >= 100 {
        Tier::Jackpot
    } else if draw > 98 {
        Tier::BigWin
    } else if draw > 95 {
        Tier::Great
    } else if draw > 90 {
        Tier::Nice
    } else if draw > 80 {
        Tier::Win
    } else if draw > 65 {
        Tier::BreakEven
    } else {
        Tier::TryAgain
    }
}

/// The band of draws in `[1, 100]` that a tier covers, stated on its own.
pub open spec fn in_band(t: Tier, draw: int) -> bool {
    &&& 1 <= draw <= 100
    &&& match t {
        Tier::Jackpot => draw == 100,
        Tier::BigWin => draw == 99,
        Tier::Great => 96 <= draw <= 98,
        Tier::Nice => 91 <= draw <= 95,
        Tier::Win => 81 <= draw <= 90,
        Tier::BreakEven => 66 <= draw <= 80,
        Tier::TryAgain => draw <= 65,
    }
}

impl Tier {
    pub open spec fn spec_multiplier(self) -> u64 {
        match self {
            Tier::Jackpot => 25,
            Tier::BigWin => 10,
            Tier::Great => 6,
            Tier::Nice => 3,
            Tier::Win => 2,
            Tier::BreakEven => 1,
            Tier::TryAgain => 0,
        }
    }

    pub open spec fn spec_label(self) -> Seq<char> {
        match self {
            Tier::Jackpot => "JACKPOT"@,
            Tier::BigWin => "Big Win"@,
            Tier::Great => "Great"@,
            Tier::Nice => "Nice"@,
            Tier::Win => "Win"@,
            Tier::BreakEven => "Break Even"@,
            Tier::TryAgain => "Try Again"@,
        }
    }

    /// How many times the wager the tier pays back.
    pub fn multiplier(&self) -> (r: u64)
        ensures
            r == self.spec_multiplier(),
    {
        match self {
            Tier::Jackpot => 25,
            Tier::BigWin => 10,
            Tier::Great => 6,
            Tier::Nice => 3,
            Tier::Win => 2,
            Tier::BreakEven => 1,
            Tier::TryAgain => 0,
        }
    }

    /// The tier's name as shown to the player.
    pub fn label(&self) -> (r: &'static str)
        ensures
            r@ == self.spec_label(),
    {
        match self {
            Tier::Jackpot => "JACKPOT",
            Tier::BigWin => "Big Win",
            Tier::Great => "Great",
            Tier::Nice => "Nice",
            Tier::Win => "Win",
            Tier::BreakEven => "Break Even",
            Tier::TryAgain => "Try Again",
        }
    }
}

/// Picks the tier of a draw, from the highest threshold down.
pub fn payout_tier(draw: u64) -> (r: Tier)
    ensures
        r == tier_of(draw as int),
{
    if draw > 99 {
        Tier::Jackpot
    } else if draw > 98 {
        Tier::BigWin
    } else if draw > 95 {
        Tier::Great
    } else if draw > 90 {
        Tier::Nice
    } else if draw > 80 {
        Tier::Win
    } else if draw > 65 {
        Tier::BreakEven
    } else {
        Tier::TryAgain
    }
}

/// The draw that a digest gives: its first eight bytes as a little-endian
/// integer, reduced to `[1, 100]`.
pub open spec fn draw_of(digest: Seq<u8>) -> int {
    le_u64_value(digest) % 100 + 1
}

/// Turns a 32-byte digest into a draw in `[1, 100]`.
pub fn draw_from_digest(digest: &[u8; 32]) -> (r: u64)
    ensures
        r == draw_of(digest@),
        1 <= r <= 100,
{
    let v = read_u64_le(digest);
    v % 100 + 1
}

/// What `settle` returns for a wager and a multiplier.
pub open spec fn settle_result(bet_amount: u64, multiplier: u64) -> Result<u64, SlotMachineError> {
    if bet_amount * multiplier <= u64::MAX {
        Ok((bet_amount * multiplier) as u64)
    } else {
        Err(SlotMachineError::Overflow)
    }
}

/// The amount paid back for a wager at a multiplier; a product that does not
/// fit in 64 bits is refused rather than wrapped.
pub fn settle(bet_amount: u64, multiplier: u64) -> (r: Result<u64, SlotMachineError>)
    ensures
        r == settle_result(bet_amount, multiplier),
        multiplier == 0 ==> r == Ok::<u64, SlotMachineError>(0),
{
    match bet_amount.checked_mul(multiplier) {
        Some(p) => Ok(p),
        None => Err(SlotMachineError::Overflow),
    }
}

/// The result of one spin.
#[derive(Clone, Copy, Debug, PartialEq, Eq, Structural)]
pub struct SpinOutcome {
    pub draw: u64,
    pub tier: Tier,
    pub multiplier: u64,
    /// What the escrow pays the player; zero when the wager is lost.
    pub payout: u64,
}

impl SpinOutcome {
    /// The label of the tier that was hit.
    pub fn label(&self) -> (r: &'static str)
        ensures
            r@ == self.tier.spec_label(),
    {
        self.tier.label()
    }
}

/// The outcome of a draw for a wager.
pub open spec fn outcome_of_draw(bet_amount: u64, draw: u64) -> Result<SpinOutcome, SlotMachineError> {
    let tier = tier_of(draw as int);
    match settle_result(bet_amount, tier.spec_multiplier()) {
        Ok(payout) => Ok(
            SpinOutcome { draw, tier, multiplier: tier.spec_multiplier(), payout },
        ),
        Err(e) => Err(e),
    }
}

/// The outcome of an entropy digest for a wager.
pub open spec fn outcome_of_digest(bet_amount: u64, digest: Seq<u8>) -> Result<SpinOutcome, SlotMachineError> {
    outcome_of_draw(bet_amount, draw_of(digest) as u64)
}

/// Settles a wager on a draw already made.
pub fn outcome_for_draw(bet_amount: u64, draw: u64) -> (r: Result<SpinOutcome, SlotMachineError>)
    ensures
        r == outcome_of_draw(bet_amount, draw),
{
    let tier = payout_tier(draw);
    let multiplier = tier.multiplier();
    match settle(bet_amount, multiplier) {
        Ok(payout) => Ok(SpinOutcome { draw, tier, multiplier, payout }),
        Err(e) => Err(e),
    }
}

/// Draws from an entropy digest and settles the wager on that draw.
pub fn spin_outcome(bet_amount: u64, digest: &[u8; 32]) -> (r: Result<SpinOutcome, SlotMachineError>)
    ensures
        r == outcome_of_digest(bet_amount, digest@),
{
    let draw = draw_from_digest(digest);
    outcome_for_draw(bet_amount, draw)
}

} // verus!
