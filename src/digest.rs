//! The SHA-256 digest and the byte strings that are hashed.
use vstd::prelude::*;
use sha2::{Digest, Sha256};
use crate::encoding::{i64_le, push_bytes, push_i64_le, push_u64_le, u64_le};

verus! {

/// The SHA-256 digest of a byte string.
pub uninterp spec fn sha256_of(data: Seq<u8>) -> Seq<u8>;

/// Relies on sha2's `Sha256::digest`: the 32-byte SHA-256 digest of `data`,
/// a function of the bytes alone.
#[verifier::external_body]
pub(crate) fn sha256(data: &Vec<u8>) -> (r: [u8; 32])
    ensures
        r@ == sha256_of(data@),
{
    Sha256::digest(data.as_slice()).into()
}

/// What a player hashes to commit: secret, salt, then the player's key.
pub open spec fn commitment_preimage(secret: u64, salt: u64, player: Seq<u8>) -> Seq<u8> {
    u64_le(secret) + u64_le(salt) + player
}

/// The entropy hashed for a reveal, in its fixed order: secret, salt, slot,
/// reveal time, commit time, player's key, wager, then any outside entropy.
pub open spec fn entropy_preimage(
    secret: u64,
    salt: u64,
    slot: u64,
    now: i64,
    committed_at: i64,
    player: Seq<u8>,
    bet_amount: u64,
    external: Seq<u8>,
) -> Seq<u8> {
    u64_le(secret) + u64_le(salt) + u64_le(slot) + i64_le(now) + i64_le(committed_at) + player
        + u64_le(bet_amount) + external
}

/// The entropy hashed for a spin without commitment: slot, player's key,
/// time, wager.
pub open spec fn spin_preimage(slot: u64, player: Seq<u8>, now: i64, bet_amount: u64) -> Seq<u8> {
    u64_le(slot) + player + i64_le(now) + u64_le(bet_amount)
}

/// Builds the bytes of `commitment_preimage`.
pub fn commitment_bytes(secret: u64, salt: u64, player: &[u8; 32]) -> (r: Vec<u8>)
    ensures
        r@ == commitment_preimage(secret, salt, player@),
{
    let mut out: Vec<u8> = Vec::new();
    push_u64_le(&mut out, secret);
    push_u64_le(&mut out, salt);
    push_bytes(&mut out, player);
    assert(out@ =~= commitment_preimage(secret, salt, player@));
    out
}

/// Builds the bytes of `entropy_preimage`.
pub fn entropy_bytes(
    secret: u64,
    salt: u64,
    slot: u64,
    now: i64,
    committed_at: i64,
    player: &[u8; 32],
    bet_amount: u64,
    external: &[u8],
) -> (r: Vec<u8>)
    ensures
        r@ == entropy_preimage(secret, salt, slot, now, committed_at, player@, bet_amount, external@),
{
    let mut out: Vec<u8> = Vec::new();
    push_u64_le(&mut out, secret);
    push_u64_le(&mut out, salt);
    push_u64_le(&mut out, slot);
    push_i64_le(&mut out, now);
    push_i64_le(&mut out, committed_at);
    push_bytes(&mut out, player);
    push_u64_le(&mut out, bet_amount);
    push_bytes(&mut out, external);
    assert(out@ =~= entropy_preimage(
        secret,
        salt,
        slot,
        now,
        committed_at,
        player@,
        bet_amount,
        external@,
    ));
    out
}

/// Builds the bytes of `spin_preimage`.
pub fn spin_bytes(slot: u64, player: &[u8; 32], now: i64, bet_amount: u64) -> (r: Vec<u8>)
    ensures
        r@ == spin_preimage(slot, player@, now, bet_amount),
{
    let mut out: Vec<u8> = Vec::new();
    push_u64_le(&mut out, slot);
    push_bytes(&mut out, player);
    push_i64_le(&mut out, now);
    push_u64_le(&mut out, bet_amount);
    assert(out@ =~= spin_preimage(slot, player@, now, bet_amount));
    out
}

} // verus!
