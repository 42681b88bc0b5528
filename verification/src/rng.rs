//! From entropy to the outcome of a dive. The entropy itself comes from
//! outside; what is done with it here depends on nothing else.

use vstd::prelude::*;
use crate::game_math::{survival_probability_bps, survival_probability_spec};
use crate::states::{GameConfig, RoundOutcome};

verus! {

/// A roll is a number below this.
pub const ROLL_RANGE: u64 = 1_000_000;

/// The Keccak-256 digest of `data`. Nothing is said here of what the digest
/// is, only that equal data have equal digests.
pub uninterp spec fn keccak256(data: Seq<u8>) -> Seq<u8>;

/// The two bytes of `value`, low byte first.
pub open spec fn u16_le_bytes(value: u16) -> Seq<u8> {
    seq![(value % 256) as u8, (value / 256) as u8]
}

/// The number that the first eight bytes of `bytes` spell, low byte first.
pub open spec fn le_u64(bytes: Seq<u8>) -> int
    recommends
        bytes.len() >= 8,
{
    bytes[0]
        + bytes[1] * 0x100
        + bytes[2] * 0x1_0000
        + bytes[3] * 0x100_0000
        + bytes[4] * 0x1_0000_0000
        + bytes[5] * 0x100_0000_0000
        + bytes[6] * 0x1_0000_0000_0000
        + bytes[7] * 0x100_0000_0000_0000
}

/// The roll that a digest stands for: its first eight bytes, read low byte
/// first, reduced modulo one million.
pub open spec fn roll_of_digest(digest: Seq<u8>) -> int
    recommends
        digest.len() >= 8,
{
    le_u64(digest) % (ROLL_RANGE as int)
}

/// The seed of a session: the digest of the slot hash followed by the
/// session's address.
pub open spec fn seed_spec(slot_hash: Seq<u8>, session: Seq<u8>) -> Seq<u8> {
    keccak256(slot_hash + session)
}

/// The roll of dive `dive_number` under `seed`: the roll of the digest of the
/// seed followed by the dive number's two bytes.
pub open spec fn roll_spec(seed: Seq<u8>, dive_number: u16) -> int {
    roll_of_digest(keccak256(seed + u16_le_bytes(dive_number)))
}

/// A dive is survived exactly when its roll lies below the survival chance.
pub open spec fn outcome_of_roll(config: &GameConfig, dive_number: u16, roll: int) -> RoundOutcome {
    if roll < survival_probability_spec(config, dive_number) {
        RoundOutcome::Survive
    } else {
        RoundOutcome::Lose
    }
}

/// Calls `solana_program::keccak::hash`. Taken on trust, not proved: what
/// comes back is the Keccak-256 digest of `data`, 32 bytes that depend on
/// the bytes of `data` and on nothing else.
#[verifier::external_body]
#[allow(deprecated)]
fn keccak_digest(data: &[u8]) -> (digest: [u8; 32])
    ensures
        digest@ == keccak256(data@),
{
    solana_program::keccak::hash(data).to_bytes()
}

/// The roll that `hash` stands for, below one million.
pub fn roll_from_hash(hash: &[u8; 32]) -> (roll: u32)
    ensures
        roll == roll_of_digest(hash@),
        roll < ROLL_RANGE,
{
    let value: u64 = hash[0] as u64
        + (hash[1] as u64) * 0x100
        + (hash[2] as u64) * 0x1_0000
        + (hash[3] as u64) * 0x100_0000
        + (hash[4] as u64) * 0x1_0000_0000
        + (hash[5] as u64) * 0x100_0000_0000
        + (hash[6] as u64) * 0x1_0000_0000_0000
        + (hash[7] as u64) * 0x100_0000_0000_0000;
    (value % ROLL_RANGE) as u32
}

/// Whether a dive with this roll is survived.
pub fn outcome_for_roll(config: &GameConfig, dive_number: u16, roll: u32) -> (outcome: RoundOutcome)
    ensures
        outcome == outcome_of_roll(config, dive_number, roll as int),
{
    if roll < survival_probability_bps(config, dive_number) {
        RoundOutcome::Survive
    } else {
        RoundOutcome::Lose
    }
}

/// The seed of a session, from a recent slot hash and the session's address.
pub fn generate_seed(recent_slot_hash: &[u8; 32], session_pda: &[u8; 32]) -> (seed: [u8; 32])
    ensures
        seed@ == seed_spec(recent_slot_hash@, session_pda@),
{
    let mut seed_material: Vec<u8> = Vec::with_capacity(64);
    seed_material.extend_from_slice(recent_slot_hash.as_slice());
    seed_material.extend_from_slice(session_pda.as_slice());
    assert(seed_material@ =~= recent_slot_hash@ + session_pda@);
    keccak_digest(seed_material.as_slice())
}

/// The roll of dive `dive_number` under `seed`, below one million.
pub fn random_roll_bps(seed: &[u8; 32], dive_number: u16) -> (roll: u32)
    ensures
        roll == roll_spec(seed@, dive_number),
        roll < ROLL_RANGE,
{
    let mut seed_material: Vec<u8> = Vec::with_capacity(34);
    seed_material.extend_from_slice(seed.as_slice());
    seed_material.push((dive_number % 256) as u8);
    seed_material.push((dive_number / 256) as u8);
    assert(seed_material@ =~= seed@ + u16_le_bytes(dive_number));
    let hash = keccak_digest(seed_material.as_slice());
    roll_from_hash(&hash)
}

/// The roll of dive `dive_number` straight from a slot hash and the session's
/// address, without keeping the seed.
pub fn random_roll_from_slots(
    slot_hash: &[u8; 32],
    session_pda: &[u8; 32],
    dive_number: u16,
) -> (roll: u32)
    ensures
        roll == roll_spec(seed_spec(slot_hash@, session_pda@), dive_number),
        roll < ROLL_RANGE,
{
    let seed = generate_seed(slot_hash, session_pda);
    random_roll_bps(&seed, dive_number)
}

/// Decides one dive from `entropy`. The same entropy, dive and configuration
/// always give the same outcome.
pub fn resolve_round(
    entropy: &[u8; 32],
    dive_number: u16,
    config: &GameConfig,
) -> (outcome: RoundOutcome)
    ensures
        outcome == outcome_of_roll(config, dive_number, roll_spec(entropy@, dive_number)),
{
    let roll = random_roll_bps(entropy, dive_number);
    outcome_for_roll(config, dive_number, roll)
}

} // verus!
