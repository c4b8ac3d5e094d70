//! The pseudo-random source: a pure function from (timestamp, turn number,
//! stream id) to one byte. Deterministic and replayable, and therefore not
//! cryptographically secure: any party who knows the timestamp and turn
//! number can predict every roll. Distinct stream ids decorrelate the
//! simultaneous rolls within one turn.

use vstd::prelude::*;

verus! {

/// The byte the source yields for the given inputs.
pub open spec fn roll_spec(timestamp: i64, seed1: u64, seed2: u64) -> u8 {
    let combined = (timestamp as u64) ^ seed1 ^ seed2;
    (((combined >> 8) ^ (combined >> 16) ^ (combined >> 24)) % 256) as u8
}

/// Mixes the three inputs into one byte by xor-folding three byte lanes of
/// their combined value.
pub fn simple_random(timestamp: i64, seed1: u64, seed2: u64) -> (r: u8)
    requires
        timestamp >= 0,
    ensures
        r == roll_spec(timestamp, seed1, seed2),
{
    let combined: u64 = (timestamp as u64) ^ seed1 ^ seed2;
    let folded: u64 = (combined >> 8) ^ (combined >> 16) ^ (combined >> 24);
    (folded % 256) as u8
}

} // verus!
