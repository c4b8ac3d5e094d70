//! A deterministic, turn-based combat resolution engine for a two-combatant
//! game. A battle advances through alternating turns driven by a hidden
//! commit-reveal stance protocol, a layered damage pipeline, randomized
//! wildcard events, cooldown and damage-over-time bookkeeping, and timeout
//! forfeiture, until one side's battle-local health reaches zero. A separate
//! progression resolver writes the outcome back into the two combatant
//! records. All arithmetic is integer-only and every transition is a pure
//! function of the prior state, the caller's inputs and the supplied clock
//! reading, so battles are replayable.

use vstd::prelude::*;

pub mod types;
pub mod rng;
pub mod sat;
pub mod character;
pub mod commitment;
pub mod battle;
pub mod damage;
pub mod stance;
pub mod wildcard;
pub mod turn;
pub mod progression;
pub mod laws;

verus! {

/// Seconds of inactivity after which the side holding the turn forfeits.
pub const TURN_TIMEOUT_SECONDS: i64 = 30;

/// Battle age in seconds past which commits and reveals are rejected.
pub const BATTLE_EXPIRY_SECONDS: i64 = 3600;

/// Seconds each side has to decide on a decision-gated wildcard event.
pub const WILDCARD_DECISION_TIMEOUT: i64 = 10;

} // verus!
