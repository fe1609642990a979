//! The commit-reveal state machine and the instructions built on it.
use vstd::prelude::*;
use crate::digest::{
    commitment_bytes, commitment_preimage, entropy_bytes, entropy_preimage, sha256, sha256_of,
    spin_bytes, spin_preimage,
};
use crate::payout::{outcome_of_digest, spin_outcome, SpinOutcome};
use crate::state::{Commitment, GameConfig, RandomnessClient, SlotMachineError};
use crate::{MAX_BET_AMOUNT, MIN_BET_AMOUNT, MIN_DELAY_SECONDS};

verus! {

/// Whether at least the minimum delay has passed between `committed_at` and `now`.
pub open spec fn delay_elapsed(committed_at: i64, now: i64) -> bool {
    now - committed_at >= MIN_DELAY_SECONDS
}

/// Decides `delay_elapsed` without overflow.
pub fn has_delay_elapsed(committed_at: i64, now: i64) -> (r: bool)
    ensures
        r == delay_elapsed(committed_at, now),
{
    if committed_at > i64::MAX - MIN_DELAY_SECONDS {
        false
    } else {
        now >= committed_at + MIN_DELAY_SECONDS
    }
}

/// Byte-for-byte equality of two 32-byte strings.
pub fn bytes32_eq(a: &[u8; 32], b: &[u8; 32]) -> (r: bool)
    ensures
        r == (a@ == b@),
{
    let mut i: usize = 0;
    while i < 32
        invariant
            i <= 32,
            forall|j: int| 0 <= j < i ==> a@[j] == b@[j],
        decreases 32 - i,
    {
        if a[i] != b[i] {
            return false;
        }
        i = i + 1;
    }
    assert(a@ =~= b@);
    true
}

/// The checks on a wager, and the record that a valid one opens.
pub open spec fn commit_result(
    player: [u8; 32],
    commitment_hash: [u8; 32],
    bet_amount: u64,
    nonce: u64,
    now: i64,
    bump: u8,
) -> Result<Commitment, SlotMachineError> {
    if bet_amount < MIN_BET_AMOUNT {
        Err(SlotMachineError::BetTooLow)
    } else if bet_amount > MAX_BET_AMOUNT {
        Err(SlotMachineError::BetTooHigh)
    } else {
        Ok(
            Commitment {
                player,
                commitment_hash,
                bet_amount,
                timestamp: now,
                revealed: false,
                bump,
                nonce,
                randomness_requested: false,
            },
        )
    }
}

/// The checks of a request for outside randomness, in the order they are made.
pub open spec fn request_check(c: Commitment, caller: Seq<u8>, now: i64) -> Result<(), SlotMachineError> {
    if c.player@ != caller {
        Err(SlotMachineError::InvalidPlayer)
    } else if c.revealed {
        Err(SlotMachineError::AlreadyRevealed)
    } else if !delay_elapsed(c.timestamp, now) {
        Err(SlotMachineError::InsufficientDelay)
    } else if c.randomness_requested {
        Err(SlotMachineError::RandomnessAlreadyRequested)
    } else {
        Ok(())
    }
}

/// The checks of a reveal, in the order they are made. `revealed_hash` is the
/// digest of what the player revealed; `external` marks the path that mixes in
/// outside entropy.
pub open spec fn reveal_check(
    c: Commitment,
    caller: Seq<u8>,
    now: i64,
    revealed_hash: Seq<u8>,
    external: bool,
) -> Result<(), SlotMachineError> {
    if c.player@ != caller {
        Err(SlotMachineError::InvalidPlayer)
    } else if c.revealed {
        Err(SlotMachineError::AlreadyRevealed)
    } else if !delay_elapsed(c.timestamp, now) {
        Err(SlotMachineError::InsufficientDelay)
    } else if revealed_hash != c.commitment_hash@ {
        Err(SlotMachineError::InvalidReveal)
    } else if external && !c.randomness_requested {
        Err(SlotMachineError::RandomnessNotRequested)
    } else {
        Ok(())
    }
}

/// What a reveal returns, given the digest of what was revealed and the
/// entropy digest.
pub open spec fn reveal_result(
    c: Commitment,
    caller: Seq<u8>,
    now: i64,
    revealed_hash: Seq<u8>,
    entropy_digest: Seq<u8>,
    external: bool,
) -> Result<SpinOutcome, SlotMachineError> {
    match reveal_check(c, caller, now, revealed_hash, external) {
        Err(e) => Err(e),
        Ok(_) => outcome_of_digest(c.bet_amount, entropy_digest),
    }
}

/// The commitment after an operation: marked revealed when it succeeded,
/// untouched when it failed.
pub open spec fn after_reveal(c: Commitment, succeeded: bool) -> Commitment {
    if succeeded {
        Commitment { revealed: true, ..c }
    } else {
        c
    }
}

/// The digest that a reveal of `secret` and `salt` is checked against.
pub open spec fn revealed_hash_of(c: Commitment, secret: u64, salt: u64) -> Seq<u8> {
    sha256_of(commitment_preimage(secret, salt, c.player@))
}

/// The entropy digest of a reveal.
pub open spec fn entropy_digest_of(
    c: Commitment,
    secret: u64,
    salt: u64,
    slot: u64,
    now: i64,
    external: Seq<u8>,
) -> Seq<u8> {
    sha256_of(
        entropy_preimage(secret, salt, slot, now, c.timestamp, c.player@, c.bet_amount, external),
    )
}

/// Creates the operator's record.
pub fn initialize(authority: [u8; 32], treasury_bump: u8) -> (r: GameConfig)
    ensures
        r == (GameConfig { authority, treasury_bump }),
{
    GameConfig { authority, treasury_bump }
}

/// Creates an operator's randomness record, with outside entropy switched off.
pub fn init_randomness_client(authority: [u8; 32], bump: u8) -> (r: RandomnessClient)
    ensures
        r == (RandomnessClient { authority, bump, use_switchboard: false }),
{
    RandomnessClient { authority, bump, use_switchboard: false }
}

/// Opens a commitment to `commitment_hash` with a wager, made at `now`. The
/// caller moves the wager into escrow only when this succeeds.
pub fn commit(
    player: [u8; 32],
    commitment_hash: [u8; 32],
    bet_amount: u64,
    nonce: u64,
    now: i64,
    bump: u8,
) -> (r: Result<Commitment, SlotMachineError>)
    ensures
        r == commit_result(player, commitment_hash, bet_amount, nonce, now, bump),
        r matches Ok(c) ==> c.wf(),
{
    if bet_amount < MIN_BET_AMOUNT {
        return Err(SlotMachineError::BetTooLow);
    }
    if bet_amount > MAX_BET_AMOUNT {
        return Err(SlotMachineError::BetTooHigh);
    }
    Ok(
        Commitment {
            player,
            commitment_hash,
            bet_amount,
            timestamp: now,
            revealed: false,
            bump,
            nonce,
            randomness_requested: false,
        },
    )
}

/// Marks that outside randomness was asked for, on behalf of `caller` at `now`.
pub fn request_randomness(commitment: &mut Commitment, caller: &[u8; 32], now: i64) -> (r: Result<
    (),
    SlotMachineError,
>)
    ensures
        r == request_check(*old(commitment), caller@, now),
        *final(commitment) == (if r is Ok {
            Commitment { randomness_requested: true, ..*old(commitment) }
        } else {
            *old(commitment)
        }),
{
    if !bytes32_eq(&commitment.player, caller) {
        return Err(SlotMachineError::InvalidPlayer);
    }
    if commitment.revealed {
        return Err(SlotMachineError::AlreadyRevealed);
    }
    if !has_delay_elapsed(commitment.timestamp, now) {
        return Err(SlotMachineError::InsufficientDelay);
    }
    if commitment.randomness_requested {
        return Err(SlotMachineError::RandomnessAlreadyRequested);
    }
    commitment.randomness_requested = true;
    Ok(())
}

/// Runs the checks of a reveal.
pub fn check_reveal(
    commitment: &Commitment,
    caller: &[u8; 32],
    now: i64,
    revealed_hash: &[u8; 32],
    external: bool,
) -> (r: Result<(), SlotMachineError>)
    ensures
        r == reveal_check(*commitment, caller@, now, revealed_hash@, external),
{
    if !bytes32_eq(&commitment.player, caller) {
        return Err(SlotMachineError::InvalidPlayer);
    }
    if commitment.revealed {
        return Err(SlotMachineError::AlreadyRevealed);
    }
    if !has_delay_elapsed(commitment.timestamp, now) {
        return Err(SlotMachineError::InsufficientDelay);
    }
    if !bytes32_eq(revealed_hash, &commitment.commitment_hash) {
        return Err(SlotMachineError::InvalidReveal);
    }
    if external && !commitment.randomness_requested {
        return Err(SlotMachineError::RandomnessNotRequested);
    }
    Ok(())
}

/// Checks a reveal, settles the wager on the entropy digest and marks the
/// commitment revealed; on any failure the commitment is left as it was.
pub fn reveal_with_digests(
    commitment: &mut Commitment,
    caller: &[u8; 32],
    now: i64,
    revealed_hash: &[u8; 32],
    entropy_digest: &[u8; 32],
    external: bool,
) -> (r: Result<SpinOutcome, SlotMachineError>)
    ensures
        r == reveal_result(*old(commitment), caller@, now, revealed_hash@, entropy_digest@, external),
        *final(commitment) == after_reveal(*old(commitment), r is Ok),
{
    match check_reveal(commitment, caller, now, revealed_hash, external) {
        Err(e) => Err(e),
        Ok(()) => {
            let outcome = spin_outcome(commitment.bet_amount, entropy_digest);
            if outcome.is_ok() {
                commitment.revealed = true;
            }
            outcome
        },
    }
}

/// Reveals `secret` and `salt` for a commitment and settles it on local
/// entropy: the slot and time of the reveal, mixed with the commitment.
pub fn reveal_and_spin(
    commitment: &mut Commitment,
    caller: &[u8; 32],
    secret_value: u64,
    salt: u64,
    slot: u64,
    now: i64,
) -> (r: Result<SpinOutcome, SlotMachineError>)
    ensures
        r == reveal_result(
            *old(commitment),
            caller@,
            now,
            revealed_hash_of(*old(commitment), secret_value, salt),
            entropy_digest_of(*old(commitment), secret_value, salt, slot, now, Seq::empty()),
            false,
        ),
        *final(commitment) == after_reveal(*old(commitment), r is Ok),
{
    let revealed_hash = sha256(&commitment_bytes(secret_value, salt, &commitment.player));
    let no_entropy: Vec<u8> = Vec::new();
    let entropy = sha256(
        &entropy_bytes(
            secret_value,
            salt,
            slot,
            now,
            commitment.timestamp,
            &commitment.player,
            commitment.bet_amount,
            no_entropy.as_slice(),
        ),
    );
    proof {
        assert(no_entropy@ =~= Seq::<u8>::empty());
    }
    reveal_with_digests(commitment, caller, now, &revealed_hash, &entropy, false)
}

/// Reveals `secret` and `salt` for a commitment whose outside randomness was
/// requested, and settles it on local entropy mixed with `external_entropy`.
pub fn consume_randomness(
    commitment: &mut Commitment,
    caller: &[u8; 32],
    secret_value: u64,
    salt: u64,
    slot: u64,
    now: i64,
    external_entropy: &[u8],
) -> (r: Result<SpinOutcome, SlotMachineError>)
    ensures
        r == reveal_result(
            *old(commitment),
            caller@,
            now,
            revealed_hash_of(*old(commitment), secret_value, salt),
            entropy_digest_of(*old(commitment), secret_value, salt, slot, now, external_entropy@),
            true,
        ),
        *final(commitment) == after_reveal(*old(commitment), r is Ok),
{
    let revealed_hash = sha256(&commitment_bytes(secret_value, salt, &commitment.player));
    let entropy = sha256(
        &entropy_bytes(
            secret_value,
            salt,
            slot,
            now,
            commitment.timestamp,
            &commitment.player,
            commitment.bet_amount,
            external_entropy,
        ),
    );
    reveal_with_digests(commitment, caller, now, &revealed_hash, &entropy, true)
}

/// What a spin without commitment returns.
pub open spec fn spin_result(player: Seq<u8>, bet_amount: u64, slot: u64, now: i64) -> Result<
    SpinOutcome,
    SlotMachineError,
> {
    if bet_amount < MIN_BET_AMOUNT {
        Err(SlotMachineError::BetTooLow)
    } else if bet_amount > MAX_BET_AMOUNT {
        Err(SlotMachineError::BetTooHigh)
    } else {
        outcome_of_digest(bet_amount, sha256_of(spin_preimage(slot, player, now, bet_amount)))
    }
}

/// A single spin without commitment, drawn from the slot, the player's key,
/// the time and the wager. Anyone who knows these can predict it.
pub fn spin(player: &[u8; 32], bet_amount: u64, slot: u64, now: i64) -> (r: Result<
    SpinOutcome,
    SlotMachineError,
>)
    ensures
        r == spin_result(player@, bet_amount, slot, now),
{
    if bet_amount < MIN_BET_AMOUNT {
        return Err(SlotMachineError::BetTooLow);
    }
    if bet_amount > MAX_BET_AMOUNT {
        return Err(SlotMachineError::BetTooHigh);
    }
    let digest = sha256(&spin_bytes(slot, player, now, bet_amount));
    spin_outcome(bet_amount, &digest)
}

} // verus!
