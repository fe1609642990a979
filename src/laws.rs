//! Properties of the protocol as a whole, proved over the contracts above.
use vstd::prelude::*;
use crate::digest::{commitment_preimage, sha256_of};
use crate::payout::{draw_of, in_band, outcome_of_digest, settle_result, tier_of, SpinOutcome, Tier};
use crate::protocol::{
    after_reveal, commit_result, delay_elapsed, entropy_digest_of, request_check, reveal_check,
    reveal_result, revealed_hash_of,
};
use crate::state::{Commitment, SlotMachineError};
use crate::{MAX_BET_AMOUNT, MIN_BET_AMOUNT, MIN_DELAY_SECONDS};

verus! {

/// Every wager within the bounds settles without overflow, whatever the draw.
pub proof fn bounded_wager_settles(bet_amount: u64, digest: Seq<u8>)
    requires
        MIN_BET_AMOUNT <= bet_amount <= MAX_BET_AMOUNT,
    ensures
        outcome_of_digest(bet_amount, digest) is Ok,
{
    let m = tier_of(draw_of(digest) as u64 as int).spec_multiplier();
    assert(m <= 25);
    assert(bet_amount * m <= MAX_BET_AMOUNT * 25) by (nonlinear_arith)
        requires
            bet_amount <= MAX_BET_AMOUNT,
            m <= 25,
    ;
    assert(settle_result(bet_amount, m) is Ok);
}

/// A reveal by the committing player, on an unrevealed commitment within the
/// wager bounds and once the delay has passed, succeeds exactly when the
/// digest of secret, salt and player equals the stored commitment hash.
pub proof fn reveal_succeeds_iff_hash_matches(
    c: Commitment,
    now: i64,
    secret: u64,
    salt: u64,
    entropy_digest: Seq<u8>,
)
    requires
        c.wf(),
        !c.revealed,
        delay_elapsed(c.timestamp, now),
    ensures
        reveal_result(c, c.player@, now, revealed_hash_of(c, secret, salt), entropy_digest, false)
            is Ok <==> revealed_hash_of(c, secret, salt) == c.commitment_hash@,
{
    bounded_wager_settles(c.bet_amount, entropy_digest);
}

/// Committing to the digest of a secret, a salt and the player's key, and
/// revealing that secret and salt once the delay has passed, succeeds.
pub proof fn commit_then_reveal_succeeds(
    player: [u8; 32],
    commitment_hash: [u8; 32],
    secret: u64,
    salt: u64,
    bet_amount: u64,
    nonce: u64,
    committed_at: i64,
    bump: u8,
    now: i64,
    slot: u64,
)
    requires
        commitment_hash@ == sha256_of(commitment_preimage(secret, salt, player@)),
        MIN_BET_AMOUNT <= bet_amount <= MAX_BET_AMOUNT,
        now - committed_at >= MIN_DELAY_SECONDS,
    ensures
        commit_result(player, commitment_hash, bet_amount, nonce, committed_at, bump) matches Ok(c)
            && reveal_result(
            c,
            player@,
            now,
            revealed_hash_of(c, secret, salt),
            entropy_digest_of(c, secret, salt, slot, now, Seq::empty()),
            false,
        ) is Ok,
{
    let c = commit_result(player, commitment_hash, bet_amount, nonce, committed_at, bump)->Ok_0;
    bounded_wager_settles(bet_amount, entropy_digest_of(c, secret, salt, slot, now, Seq::empty()));
}

/// Once a commitment is revealed it stays revealed, and every further request
/// or reveal on it fails: by its player with `AlreadyRevealed`, by anyone
/// else with `InvalidPlayer`.
pub proof fn revealed_is_terminal(
    c: Commitment,
    caller: Seq<u8>,
    now: i64,
    revealed_hash: Seq<u8>,
    entropy_digest: Seq<u8>,
    external: bool,
    succeeded: bool,
)
    requires
        c.revealed,
    ensures
        request_check(c, c.player@, now) == Err::<(), SlotMachineError>(
            SlotMachineError::AlreadyRevealed,
        ),
        reveal_result(c, c.player@, now, revealed_hash, entropy_digest, external) == Err::<
            SpinOutcome,
            SlotMachineError,
        >(SlotMachineError::AlreadyRevealed),
        request_check(c, caller, now) is Err,
        reveal_result(c, caller, now, revealed_hash, entropy_digest, external) is Err,
        after_reveal(c, succeeded).revealed,
{
}

/// Before the minimum delay both a request and a reveal by the player fail
/// with `InsufficientDelay`; at exactly the minimum delay neither fails on
/// that account.
pub proof fn delay_gate(
    c: Commitment,
    now: i64,
    revealed_hash: Seq<u8>,
    entropy_digest: Seq<u8>,
    external: bool,
)
    requires
        !c.revealed,
    ensures
        now - c.timestamp < MIN_DELAY_SECONDS ==> request_check(c, c.player@, now) == Err::<
            (),
            SlotMachineError,
        >(SlotMachineError::InsufficientDelay) && reveal_result(
            c,
            c.player@,
            now,
            revealed_hash,
            entropy_digest,
            external,
        ) == Err::<SpinOutcome, SlotMachineError>(
            SlotMachineError::InsufficientDelay,
        ),
        now - c.timestamp == MIN_DELAY_SECONDS ==> request_check(c, c.player@, now) != Err::<
            (),
            SlotMachineError,
        >(SlotMachineError::InsufficientDelay) && reveal_check(
            c,
            c.player@,
            now,
            revealed_hash,
            external,
        ) != Err::<(), SlotMachineError>(SlotMachineError::InsufficientDelay) && reveal_result(
            c,
            c.player@,
            now,
            revealed_hash,
            entropy_digest,
            external,
        ) != Err::<SpinOutcome, SlotMachineError>(
            SlotMachineError::InsufficientDelay,
        ),
{
}

/// Every digest gives a draw in `[1, 100]`.
pub proof fn draw_in_range(digest: Seq<u8>)
    ensures
        1 <= draw_of(digest) <= 100,
{
}

/// The tier table is exhaustive and its tiers are mutually exclusive: every
/// draw in `[1, 100]` lies in the band of exactly one tier, the one the
/// table picks.
pub proof fn tiers_partition_draws(draw: int)
    requires
        1 <= draw <= 100,
    ensures
        forall|t: Tier| #[trigger] in_band(t, draw) <==> t == tier_of(draw),
{
}

} // verus!
