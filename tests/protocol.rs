use sha2::{Digest, Sha256};
use slot_machine::digest::{commitment_bytes, entropy_bytes, spin_bytes};
use slot_machine::encoding::{i64_to_bits, push_i64_le, push_u64_le, read_u64_le};
use slot_machine::payout::{draw_from_digest, outcome_for_draw, payout_tier, settle, spin_outcome, Tier};
use slot_machine::protocol::{
    check_reveal, commit, consume_randomness, has_delay_elapsed, init_randomness_client,
    initialize, request_randomness, reveal_and_spin, reveal_with_digests, spin,
};
use slot_machine::state::{Commitment, Phase, SlotMachineError};
use slot_machine::store::CommitmentStore;
use slot_machine::{MAX_BET_AMOUNT, MIN_BET_AMOUNT, MIN_DELAY_SECONDS};

const PLAYER: [u8; 32] = [7u8; 32];
const OTHER: [u8; 32] = [9u8; 32];

fn hash_of(secret: u64, salt: u64, player: &[u8; 32]) -> [u8; 32] {
    let mut h = Sha256::new();
    h.update(secret.to_le_bytes());
    h.update(salt.to_le_bytes());
    h.update(player);
    h.finalize().into()
}

fn fresh(secret: u64, salt: u64, bet: u64, created: i64) -> Commitment {
    commit(PLAYER, hash_of(secret, salt, &PLAYER), bet, 1, created, 254).unwrap()
}

fn draw_of_bytes(bytes: &[u8]) -> u64 {
    let d: [u8; 32] = Sha256::digest(bytes).into();
    u64::from_le_bytes(d[0..8].try_into().unwrap()) % 100 + 1
}

#[test]
fn win_tier_at_82_pays_double() {
    let o = outcome_for_draw(10_000_000, 82).unwrap();
    assert_eq!(o.tier, Tier::Win);
    assert_eq!(o.multiplier, 2);
    assert_eq!(o.label(), "Win");
    assert_eq!(o.payout, 20_000_000);
}

#[test]
fn draw_50_is_a_loss() {
    let o = outcome_for_draw(10_000_000, 50).unwrap();
    assert_eq!(o.tier, Tier::TryAgain);
    assert_eq!(o.multiplier, 0);
    assert_eq!(o.label(), "Try Again");
    assert_eq!(o.payout, 0);
}

#[test]
fn commit_below_minimum_is_refused() {
    assert_eq!(commit(PLAYER, [1u8; 32], 5_000_000, 0, 100, 0), Err(SlotMachineError::BetTooLow));
    let mut store = CommitmentStore::new();
    assert_eq!(store.open(PLAYER, [1u8; 32], 5_000_000, 0, 100, 0), Err(SlotMachineError::BetTooLow));
    assert_eq!(store.get(&PLAYER, 0), Err(SlotMachineError::CommitmentNotFound));
}

#[test]
fn commit_above_maximum_is_refused() {
    assert_eq!(commit(PLAYER, [1u8; 32], MAX_BET_AMOUNT + 1, 0, 100, 0), Err(SlotMachineError::BetTooHigh));
}

#[test]
fn commit_at_the_bounds_opens_a_pending_record() {
    let c = commit(PLAYER, [3u8; 32], MIN_BET_AMOUNT, 5, 100, 9).unwrap();
    assert_eq!(c.player, PLAYER);
    assert_eq!(c.commitment_hash, [3u8; 32]);
    assert_eq!(c.bet_amount, MIN_BET_AMOUNT);
    assert_eq!(c.timestamp, 100);
    assert_eq!(c.nonce, 5);
    assert_eq!(c.bump, 9);
    assert!(!c.revealed);
    assert!(!c.randomness_requested);
    assert_eq!(c.phase(), Phase::Pending);
    assert!(commit(PLAYER, [3u8; 32], MAX_BET_AMOUNT, 5, 100, 9).is_ok());
}

#[test]
fn reveal_by_another_identity_is_refused() {
    let mut c = fresh(42, 43, MIN_BET_AMOUNT, 100);
    let before = c;
    assert_eq!(reveal_and_spin(&mut c, &OTHER, 42, 43, 5, 200), Err(SlotMachineError::InvalidPlayer));
    assert_eq!(c, before);
}

#[test]
fn commit_then_reveal_succeeds() {
    let mut c = fresh(42, 43, MIN_BET_AMOUNT, 100);
    let o = reveal_and_spin(&mut c, &PLAYER, 42, 43, 5, 102).unwrap();
    assert!(c.revealed);
    assert_eq!(c.phase(), Phase::Revealed);
    assert!(o.draw >= 1 && o.draw <= 100);
    assert_eq!(o.tier, payout_tier(o.draw));
    assert_eq!(o.payout, MIN_BET_AMOUNT * o.multiplier);
}

#[test]
fn reveal_draw_follows_the_entropy_order() {
    let mut c = fresh(42, 43, MIN_BET_AMOUNT, -100);
    let o = reveal_and_spin(&mut c, &PLAYER, 42, 43, 77, 500).unwrap();
    let mut bytes = Vec::new();
    bytes.extend_from_slice(&42u64.to_le_bytes());
    bytes.extend_from_slice(&43u64.to_le_bytes());
    bytes.extend_from_slice(&77u64.to_le_bytes());
    bytes.extend_from_slice(&500i64.to_le_bytes());
    bytes.extend_from_slice(&(-100i64).to_le_bytes());
    bytes.extend_from_slice(&PLAYER);
    bytes.extend_from_slice(&MIN_BET_AMOUNT.to_le_bytes());
    assert_eq!(o.draw, draw_of_bytes(&bytes));
}

#[test]
fn flipped_secret_bit_fails_the_reveal() {
    let mut c = fresh(42, 43, MIN_BET_AMOUNT, 100);
    assert_eq!(reveal_and_spin(&mut c, &PLAYER, 42 ^ 1, 43, 5, 200), Err(SlotMachineError::InvalidReveal));
    assert_eq!(reveal_and_spin(&mut c, &PLAYER, 42, 43 ^ 0x80, 5, 200), Err(SlotMachineError::InvalidReveal));
    assert!(!c.revealed);
}

#[test]
fn second_reveal_is_refused() {
    let mut c = fresh(42, 43, MIN_BET_AMOUNT, 100);
    assert!(reveal_and_spin(&mut c, &PLAYER, 42, 43, 5, 200).is_ok());
    assert_eq!(reveal_and_spin(&mut c, &PLAYER, 42, 43, 6, 300), Err(SlotMachineError::AlreadyRevealed));
    assert_eq!(request_randomness(&mut c, &PLAYER, 300), Err(SlotMachineError::AlreadyRevealed));
    assert_eq!(consume_randomness(&mut c, &PLAYER, 42, 43, 6, 300, &[1, 2]), Err(SlotMachineError::AlreadyRevealed));
    assert!(c.revealed);
}

#[test]
fn delay_is_enforced_and_exact() {
    let mut c = fresh(42, 43, MIN_BET_AMOUNT, 100);
    assert_eq!(request_randomness(&mut c, &PLAYER, 101), Err(SlotMachineError::InsufficientDelay));
    assert_eq!(reveal_and_spin(&mut c, &PLAYER, 42, 43, 5, 101), Err(SlotMachineError::InsufficientDelay));
    assert_eq!(reveal_and_spin(&mut c, &PLAYER, 42, 43, 5, 50), Err(SlotMachineError::InsufficientDelay));
    assert!(!c.randomness_requested);
    assert_eq!(request_randomness(&mut c, &PLAYER, 100 + MIN_DELAY_SECONDS), Ok(()));
    let mut d = fresh(42, 43, MIN_BET_AMOUNT, 100);
    assert!(reveal_and_spin(&mut d, &PLAYER, 42, 43, 5, 100 + MIN_DELAY_SECONDS).is_ok());
}

#[test]
fn delay_near_the_largest_time_does_not_overflow() {
    assert!(!has_delay_elapsed(i64::MAX, i64::MAX));
    assert!(!has_delay_elapsed(i64::MAX - 1, i64::MAX));
    assert!(has_delay_elapsed(i64::MAX - 2, i64::MAX));
    assert!(has_delay_elapsed(i64::MIN, i64::MAX));
}

#[test]
fn randomness_request_is_one_time() {
    let mut c = fresh(42, 43, MIN_BET_AMOUNT, 100);
    assert_eq!(request_randomness(&mut c, &OTHER, 200), Err(SlotMachineError::InvalidPlayer));
    assert_eq!(request_randomness(&mut c, &PLAYER, 200), Ok(()));
    assert_eq!(c.phase(), Phase::RandomnessRequested);
    assert_eq!(request_randomness(&mut c, &PLAYER, 201), Err(SlotMachineError::RandomnessAlreadyRequested));
}

#[test]
fn outside_entropy_needs_a_request() {
    let mut c = fresh(42, 43, MIN_BET_AMOUNT, 100);
    assert_eq!(consume_randomness(&mut c, &PLAYER, 42, 43, 5, 200, &[1, 2, 3]), Err(SlotMachineError::RandomnessNotRequested));
    assert!(!c.revealed);
    request_randomness(&mut c, &PLAYER, 200).unwrap();
    let o = consume_randomness(&mut c, &PLAYER, 42, 43, 5, 201, &[1, 2, 3]).unwrap();
    assert!(c.revealed);
    let mut bytes = Vec::new();
    for part in [&42u64.to_le_bytes()[..], &43u64.to_le_bytes(), &5u64.to_le_bytes(), &201i64.to_le_bytes(), &100i64.to_le_bytes(), &PLAYER, &MIN_BET_AMOUNT.to_le_bytes(), &[1, 2, 3]] {
        bytes.extend_from_slice(part);
    }
    assert_eq!(o.draw, draw_of_bytes(&bytes));
}

#[test]
fn failed_payout_leaves_the_commitment_unrevealed() {
    let mut c = Commitment {
        player: PLAYER,
        commitment_hash: [0u8; 32],
        bet_amount: u64::MAX,
        timestamp: 0,
        revealed: false,
        bump: 0,
        nonce: 0,
        randomness_requested: false,
    };
    let mut jackpot = [0u8; 32];
    jackpot[0] = 99;
    assert_eq!(reveal_with_digests(&mut c, &PLAYER, 10, &[0u8; 32], &jackpot, false), Err(SlotMachineError::Overflow));
    assert!(!c.revealed);
    let mut loss = [0u8; 32];
    loss[0] = 10;
    let o = reveal_with_digests(&mut c, &PLAYER, 10, &[0u8; 32], &loss, false).unwrap();
    assert_eq!((o.draw, o.payout), (11, 0));
    assert!(c.revealed);
}

#[test]
fn check_reveal_compares_every_byte() {
    let c = fresh(1, 2, MIN_BET_AMOUNT, 0);
    let mut h = c.commitment_hash;
    assert_eq!(check_reveal(&c, &PLAYER, 10, &h, false), Ok(()));
    h[31] ^= 1;
    assert_eq!(check_reveal(&c, &PLAYER, 10, &h, false), Err(SlotMachineError::InvalidReveal));
}

#[test]
fn tiers_at_each_boundary() {
    let cases = [
        (1, Tier::TryAgain, 0, "Try Again"),
        (65, Tier::TryAgain, 0, "Try Again"),
        (66, Tier::BreakEven, 1, "Break Even"),
        (80, Tier::BreakEven, 1, "Break Even"),
        (81, Tier::Win, 2, "Win"),
        (90, Tier::Win, 2, "Win"),
        (91, Tier::Nice, 3, "Nice"),
        (95, Tier::Nice, 3, "Nice"),
        (96, Tier::Great, 6, "Great"),
        (98, Tier::Great, 6, "Great"),
        (99, Tier::BigWin, 10, "Big Win"),
        (100, Tier::Jackpot, 25, "JACKPOT"),
    ];
    for (draw, tier, m, label) in cases {
        let t = payout_tier(draw);
        assert_eq!(t, tier);
        assert_eq!(t.multiplier(), m);
        assert_eq!(t.label(), label);
    }
}

#[test]
fn every_draw_has_one_tier() {
    for draw in 1..=100u64 {
        let t = payout_tier(draw);
        let expected = if draw > 99 { 25 } else if draw > 98 { 10 } else if draw > 95 { 6 } else if draw > 90 { 3 } else if draw > 80 { 2 } else if draw > 65 { 1 } else { 0 };
        assert_eq!(t.multiplier(), expected);
    }
}

#[test]
fn settle_multiplies_and_refuses_overflow() {
    assert_eq!(settle(10_000_000, 25), Ok(250_000_000));
    assert_eq!(settle(MAX_BET_AMOUNT, 25), Ok(25_000_000_000));
    assert_eq!(settle(10_000_000, 0), Ok(0));
    assert_eq!(settle(u64::MAX, 2), Err(SlotMachineError::Overflow));
    assert_eq!(settle(u64::MAX, 1), Ok(u64::MAX));
}

#[test]
fn draw_stays_in_range_for_extreme_digests() {
    assert_eq!(draw_from_digest(&[0u8; 32]), 1);
    assert_eq!(draw_from_digest(&[0xffu8; 32]), u64::MAX % 100 + 1);
    let mut d = [0u8; 32];
    d[0] = 99;
    assert_eq!(draw_from_digest(&d), 100);
    d[8] = 200;
    assert_eq!(draw_from_digest(&d), 100);
}

#[test]
fn spin_outcome_reads_the_digest() {
    let mut d = [0u8; 32];
    d[0] = 81;
    let o = spin_outcome(MIN_BET_AMOUNT, &d).unwrap();
    assert_eq!((o.draw, o.tier, o.payout), (82, Tier::Win, 2 * MIN_BET_AMOUNT));
}

#[test]
fn legacy_spin_checks_the_wager_and_hashes_its_inputs() {
    assert_eq!(spin(&PLAYER, 1, 5, 10), Err(SlotMachineError::BetTooLow));
    assert_eq!(spin(&PLAYER, MAX_BET_AMOUNT + 1, 5, 10), Err(SlotMachineError::BetTooHigh));
    let o = spin(&PLAYER, MIN_BET_AMOUNT, 5, 10).unwrap();
    let mut bytes = Vec::new();
    bytes.extend_from_slice(&5u64.to_le_bytes());
    bytes.extend_from_slice(&PLAYER);
    bytes.extend_from_slice(&10i64.to_le_bytes());
    bytes.extend_from_slice(&MIN_BET_AMOUNT.to_le_bytes());
    assert_eq!(o.draw, draw_of_bytes(&bytes));
    assert_eq!(o.payout, MIN_BET_AMOUNT * o.multiplier);
}

#[test]
fn byte_layouts_match_std() {
    let mut out = vec![1u8];
    push_u64_le(&mut out, 0x0102_0304_0506_0708);
    assert_eq!(out, vec![1, 8, 7, 6, 5, 4, 3, 2, 1]);
    let mut neg = Vec::new();
    push_i64_le(&mut neg, -2);
    assert_eq!(neg, (-2i64).to_le_bytes().to_vec());
    assert_eq!(i64_to_bits(i64::MIN), 1u64 << 63);
    assert_eq!(i64_to_bits(-1), u64::MAX);
    let mut d = [0u8; 32];
    d[..8].copy_from_slice(&0xdead_beef_0000_0001u64.to_le_bytes());
    assert_eq!(read_u64_le(&d), 0xdead_beef_0000_0001);
    assert_eq!(commitment_bytes(1, 2, &PLAYER).len(), 48);
    assert_eq!(spin_bytes(1, &PLAYER, 2, 3).len(), 56);
    assert_eq!(entropy_bytes(1, 2, 3, 4, 5, &PLAYER, 6, &[7]).len(), 81);
}

#[test]
fn store_keeps_one_live_commitment_per_key() {
    let mut store = CommitmentStore::new();
    let h = hash_of(42, 43, &PLAYER);
    let c = store.open(PLAYER, h, MIN_BET_AMOUNT, 1, 100, 0).unwrap();
    assert_eq!(store.get(&PLAYER, 1), Ok(c));
    assert_eq!(store.get(&PLAYER, 2), Err(SlotMachineError::CommitmentNotFound));
    assert_eq!(store.open(PLAYER, h, MIN_BET_AMOUNT, 1, 100, 0), Err(SlotMachineError::CommitmentInUse));
    assert!(store.open(PLAYER, h, MIN_BET_AMOUNT, 2, 100, 0).is_ok());
    assert!(store.open(OTHER, h, MIN_BET_AMOUNT, 1, 100, 0).is_ok());
    let mut live = store.get(&PLAYER, 1).unwrap();
    reveal_and_spin(&mut live, &PLAYER, 42, 43, 5, 200).unwrap();
    assert_eq!(store.replace(live), Ok(()));
    assert!(store.get(&PLAYER, 1).unwrap().revealed);
    let again = store.open(PLAYER, h, MAX_BET_AMOUNT, 1, 300, 0).unwrap();
    assert_eq!(store.get(&PLAYER, 1), Ok(again));
    assert!(!again.revealed);
    let mut stray = again;
    stray.nonce = 99;
    assert_eq!(store.replace(stray), Err(SlotMachineError::CommitmentNotFound));
}

#[test]
fn operator_records_start_as_specified() {
    let g = initialize(OTHER, 253);
    assert_eq!((g.authority, g.treasury_bump), (OTHER, 253));
    let r = init_randomness_client(OTHER, 251);
    assert_eq!((r.authority, r.bump, r.use_switchboard), (OTHER, 251, false));
}
