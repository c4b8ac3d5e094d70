//! The stance commit-reveal binding: a stance and a secret salt are encoded
//! as bytes and hashed; the hash is committed before the opponent's stance is
//! known and checked bit-exactly at reveal time.

use vstd::prelude::*;
use crate::types::BattleStance;

verus! {

/// The digest SHA-256 yields for the given bytes.
pub uninterp spec fn sha256_of(data: Seq<u8>) -> Seq<u8>;

/// Relies on `anchor_lang::solana_program::hash::hash` (SHA-256): the digest
/// depends on the input bytes alone and is 32 bytes long.
#[verifier::external_body]
fn sha256(data: &Vec<u8>) -> (r: Vec<u8>)
    ensures
        r@ == sha256_of(data@),
        r@.len() == 32,
{
    anchor_lang::solana_program::hash::hash(data.as_slice()).to_bytes().to_vec()
}

/// The one-byte encoding of a stance.
pub open spec fn stance_byte(stance: BattleStance) -> u8 {
    match stance {
        BattleStance::Aggressive => 0u8,
        BattleStance::Defensive => 1u8,
        BattleStance::Balanced => 2u8,
        BattleStance::Berserker => 3u8,
        BattleStance::Counter => 4u8,
    }
}

/// The eight little-endian bytes of a salt.
pub open spec fn salt_bytes(salt: u64) -> Seq<u8> {
    seq![
        ((salt >> 0) % 256) as u8,
        ((salt >> 8) % 256) as u8,
        ((salt >> 16) % 256) as u8,
        ((salt >> 24) % 256) as u8,
        ((salt >> 32) % 256) as u8,
        ((salt >> 40) % 256) as u8,
        ((salt >> 48) % 256) as u8,
        ((salt >> 56) % 256) as u8,
    ]
}

/// The bytes a commitment binds: the stance byte followed by the salt bytes.
pub open spec fn commit_message(stance: BattleStance, salt: u64) -> Seq<u8> {
    seq![stance_byte(stance)] + salt_bytes(salt)
}

/// The commitment hash for a stance and salt.
pub open spec fn commitment_hash(stance: BattleStance, salt: u64) -> Seq<u8> {
    sha256_of(commit_message(stance, salt))
}

impl BattleStance {
    /// Encodes a stance as its single identifying byte.
    pub fn to_bytes(&self) -> (r: Vec<u8>)
        ensures
            r@ =~= seq![stance_byte(*self)],
    {
        let b: u8 = match self {
            BattleStance::Aggressive => 0,
            BattleStance::Defensive => 1,
            BattleStance::Balanced => 2,
            BattleStance::Berserker => 3,
            BattleStance::Counter => 4,
        };
        let mut v: Vec<u8> = Vec::new();
        v.push(b);
        v
    }
}

/// Computes the hash a player commits to for a stance and salt: SHA-256 over
/// the stance byte followed by the salt's little-endian bytes.
pub fn compute_commitment(stance: BattleStance, salt: u64) -> (r: Vec<u8>)
    ensures
        r@ == commitment_hash(stance, salt),
        r@.len() == 32,
{
    let mut message = stance.to_bytes();
    message.push(((salt >> 0) % 256) as u8);
    message.push(((salt >> 8) % 256) as u8);
    message.push(((salt >> 16) % 256) as u8);
    message.push(((salt >> 24) % 256) as u8);
    message.push(((salt >> 32) % 256) as u8);
    message.push(((salt >> 40) % 256) as u8);
    message.push(((salt >> 48) % 256) as u8);
    message.push(((salt >> 56) % 256) as u8);
    assert(message@ =~= commit_message(stance, salt));
    sha256(&message)
}

/// Compares two byte strings for bit-exact equality.
pub fn bytes_eq(a: &Vec<u8>, b: &Vec<u8>) -> (r: bool)
    ensures
        r == (a@ == b@),
{
    if a.len() != b.len() {
        assert(a@ !~= b@);
        return false;
    }
    let n = a.len();
    let mut i: usize = 0;
    while i < n
        invariant
            n == a@.len() == b@.len(),
            0 <= i <= n,
            forall|j: int| 0 <= j < i ==> a@[j] == b@[j],
        decreases n - i,
    {
        if a[i] != b[i] {
            return false;
        }
        i += 1;
    }
    assert(a@ =~= b@);
    true
}

} // verus!
