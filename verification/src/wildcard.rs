//! The wildcard subsystem: the immediate event effects applied within the
//! turn that rolled them, and the two-party decision protocol (accept or
//! decline before a deadline, missing decisions defaulting to decline) for
//! the two decision-gated events.

use vstd::prelude::*;
use crate::battle::{Battle, BattleView};
use crate::rng::{roll_spec, simple_random};
use crate::sat::{add_sat16, add_sat64, mul_sat64, sat_add16, sat_add64, sat_mul64};
use crate::types::{GameError, LogEntry, WildcardEvent};

verus! {

/// Whether an event suspends the turn until both sides decide.
pub open spec fn requires_decision_spec(wildcard: WildcardEvent) -> bool {
    wildcard == WildcardEvent::DoubleOrNothing || wildcard == WildcardEvent::DeathRoulette
}

/// True for the two events that suspend the turn for an accept/decline
/// decision from each side.
pub fn requires_decision(wildcard: WildcardEvent) -> (r: bool)
    ensures
        r == requires_decision_spec(wildcard),
{
    matches!(wildcard, WildcardEvent::DoubleOrNothing | WildcardEvent::DeathRoulette)
}

/// The immediate wildcard effects: the modified damage and the battle record
/// after the event's side effects. ReverseRoles swaps the two sides'
/// battle-local health values (the battle record carries no per-side maximum,
/// so the exchange is of the values themselves); MysteryBox rolls one of four
/// buffs for the acting side; ComboBreaker steals the opponent's combo;
/// TimeWarp converts the damage into healing for its target, capped at fifty;
/// LuckySeven multiplies by seven only when the last recorded damage roll is
/// seven. The decision-gated events and GamblersFallacy (consumed inside the
/// damage pipeline) have no immediate effect here.
#[verifier::opaque]
pub open spec fn wildcard_apply_spec(damage: u64, b: BattleView, is_p1: bool, ts: i64) -> (
    u64,
    BattleView,
) {
    match b.wildcard_type {
        None => (damage, b),
        Some(w) => match w {
            WildcardEvent::ReverseRoles => (
                damage,
                BattleView { player1_hp: b.player2_hp, player2_hp: b.player1_hp, ..b },
            ),
            WildcardEvent::MysteryBox => {
                let buff = roll_spec(ts, b.turn_number as u64, 8) % 4;
                if buff == 0 {
                    (sat_mul64(damage, 3), b)
                } else if buff == 1 {
                    (
                        damage,
                        if is_p1 {
                            BattleView { player1_reflection: 50u16, ..b }
                        } else {
                            BattleView { player2_reflection: 50u16, ..b }
                        },
                    )
                } else if buff == 2 {
                    (
                        damage,
                        if is_p1 {
                            BattleView { player1_hp: sat_add64(b.player1_hp, 50), ..b }
                        } else {
                            BattleView { player2_hp: sat_add64(b.player2_hp, 50), ..b }
                        },
                    )
                } else {
                    (
                        damage,
                        if is_p1 {
                            BattleView { player1_combo: sat_add16(b.player1_combo, 3), ..b }
                        } else {
                            BattleView { player2_combo: sat_add16(b.player2_combo, 3), ..b }
                        },
                    )
                }
            },
            WildcardEvent::ComboBreaker => (damage, b.steal_combo(is_p1)),
            WildcardEvent::TimeWarp => {
                let heal = if damage < 50 {
                    damage
                } else {
                    50u64
                };
                (
                    0u64,
                    if is_p1 {
                        BattleView { player2_hp: sat_add64(b.player2_hp, heal), ..b }
                    } else {
                        BattleView { player1_hp: sat_add64(b.player1_hp, heal), ..b }
                    },
                )
            },
            WildcardEvent::LuckySeven => (
                if b.last_damage_roll == 7 {
                    sat_mul64(damage, 7)
                } else {
                    damage
                },
                b,
            ),
            _ => (damage, b),
        },
    }
}

/// Applies the pending wildcard's immediate effects to the turn's damage and
/// the battle record.
pub fn apply_wildcard_effects(
    damage: u64,
    battle: &mut Battle,
    is_player1: bool,
    timestamp: i64,
) -> (r: u64)
    requires
        timestamp >= 0,
    ensures
        r == wildcard_apply_spec(damage, old(battle)@, is_player1, timestamp).0,
        final(battle)@ =~= wildcard_apply_spec(damage, old(battle)@, is_player1, timestamp).1,
        final(battle)@.turn_number == old(battle)@.turn_number,
{
    proof {
        reveal(wildcard_apply_spec);
    }
    let wildcard = match battle.wildcard_type {
        Some(w) => w,
        None => {
            return damage;
        },
    };
    match wildcard {
        WildcardEvent::ReverseRoles => {
            let temp: u64 = battle.player1_hp;
            battle.player1_hp = battle.player2_hp;
            battle.player2_hp = temp;
            damage
        },
        WildcardEvent::MysteryBox => {
            let buff_roll: u8 = simple_random(timestamp, battle.turn_number as u64, 8) % 4;
            if buff_roll == 0 {
                mul_sat64(damage, 3)
            } else if buff_roll == 1 {
                if is_player1 {
                    battle.player1_reflection = 50;
                } else {
                    battle.player2_reflection = 50;
                }
                damage
            } else if buff_roll == 2 {
                if is_player1 {
                    battle.player1_hp = add_sat64(battle.player1_hp, 50);
                } else {
                    battle.player2_hp = add_sat64(battle.player2_hp, 50);
                }
                damage
            } else {
                if is_player1 {
                    battle.player1_combo = add_sat16(battle.player1_combo, 3);
                } else {
                    battle.player2_combo = add_sat16(battle.player2_combo, 3);
                }
                damage
            }
        },
        WildcardEvent::ComboBreaker => {
            if is_player1 {
                let stolen: u16 = battle.player2_combo;
                battle.player1_combo = add_sat16(battle.player1_combo, stolen);
                battle.player2_combo = 0;
            } else {
                let stolen: u16 = battle.player1_combo;
                battle.player2_combo = add_sat16(battle.player2_combo, stolen);
                battle.player1_combo = 0;
            }
            damage
        },
        WildcardEvent::TimeWarp => {
            let heal: u64 = if damage < 50 {
                damage
            } else {
                50
            };
            if is_player1 {
                battle.player2_hp = add_sat64(battle.player2_hp, heal);
            } else {
                battle.player1_hp = add_sat64(battle.player1_hp, heal);
            }
            0
        },
        WildcardEvent::LuckySeven => {
            if battle.last_damage_roll == 7 {
                mul_sat64(damage, 7)
            } else {
                damage
            }
        },
        _ => damage,
    }
}

/// The DoubleOrNothing resolution: with both sides accepting, one coin flip
/// either makes both miss or grants both two combo points; with one side
/// accepting, that side's flip either records a miss or grants three combo
/// points.
pub open spec fn double_or_nothing_spec(b: BattleView, p1a: bool, p2a: bool, now: i64) -> BattleView {
    if p1a && p2a {
        if roll_spec(now, b.turn_number as u64, 7) % 2 == 0 {
            b.with_log(LogEntry::DoubleOrNothingBothMiss)
        } else {
            BattleView {
                player1_combo: sat_add16(b.player1_combo, 2),
                player2_combo: sat_add16(b.player2_combo, 2),
                ..b
            }.with_log(LogEntry::DoubleOrNothingBothBoost)
        }
    } else if p1a {
        if roll_spec(now, b.turn_number as u64, 7) % 2 == 0 {
            BattleView { player1_miss_count: sat_add16(b.player1_miss_count, 1), ..b }.with_log(
                LogEntry::DoubleOrNothingMiss { side: 1u8 },
            )
        } else {
            BattleView { player1_combo: sat_add16(b.player1_combo, 3), ..b }.with_log(
                LogEntry::DoubleOrNothingBoost { side: 1u8 },
            )
        }
    } else if p2a {
        if roll_spec(now, b.turn_number as u64, 8) % 2 == 0 {
            BattleView { player2_miss_count: sat_add16(b.player2_miss_count, 1), ..b }.with_log(
                LogEntry::DoubleOrNothingMiss { side: 2u8 },
            )
        } else {
            BattleView { player2_combo: sat_add16(b.player2_combo, 3), ..b }.with_log(
                LogEntry::DoubleOrNothingBoost { side: 2u8 },
            )
        }
    } else {
        b
    }
}

/// The DeathRoulette resolution: with both sides accepting, one coin flip
/// drops one side to one health and grants the other a hundred; with one side
/// accepting, that side's flip either drops it to one health or raises it to
/// nine hundred ninety-nine.
pub open spec fn death_roulette_spec(b: BattleView, p1a: bool, p2a: bool, now: i64) -> BattleView {
    if p1a && p2a {
        if roll_spec(now, b.turn_number as u64, 9) % 2 == 0 {
            BattleView {
                player1_hp: 1u64,
                player2_hp: sat_add64(b.player2_hp, 100),
                ..b
            }.with_log(LogEntry::DeathRouletteBoth { near_death_side: 1u8 })
        } else {
            BattleView {
                player2_hp: 1u64,
                player1_hp: sat_add64(b.player1_hp, 100),
                ..b
            }.with_log(LogEntry::DeathRouletteBoth { near_death_side: 2u8 })
        }
    } else if p1a {
        if roll_spec(now, b.turn_number as u64, 9) % 2 == 0 {
            BattleView { player1_hp: 1u64, ..b }.with_log(
                LogEntry::DeathRouletteNearDeath { side: 1u8 },
            )
        } else {
            BattleView { player1_hp: 999u64, ..b }.with_log(LogEntry::DeathRouletteHeal { side: 1u8 })
        }
    } else if p2a {
        if roll_spec(now, b.turn_number as u64, 10) % 2 == 0 {
            BattleView { player2_hp: 1u64, ..b }.with_log(
                LogEntry::DeathRouletteNearDeath { side: 2u8 },
            )
        } else {
            BattleView { player2_hp: 999u64, ..b }.with_log(LogEntry::DeathRouletteHeal { side: 2u8 })
        }
    } else {
        b
    }
}

/// The battle after a decision-gated wildcard resolves: the event's effect
/// matrix applied for the recorded decisions (a missing one counts as
/// decline), then the wildcard state cleared.
pub open spec fn resolve_wildcard_spec(b: BattleView, now: i64) -> BattleView {
    let p1a = b.wildcard_player1_decision == Some(true);
    let p2a = b.wildcard_player2_decision == Some(true);
    let b1 = match b.wildcard_type {
        Some(WildcardEvent::DoubleOrNothing) => double_or_nothing_spec(b, p1a, p2a, now),
        Some(WildcardEvent::DeathRoulette) => death_roulette_spec(b, p1a, p2a, now),
        _ => b,
    };
    BattleView {
        wildcard_active: false,
        wildcard_player1_decision: None,
        wildcard_player2_decision: None,
        ..b1
    }
}

/// Applies the DoubleOrNothing effect matrix for the recorded decisions.
fn resolve_double_or_nothing(battle: &mut Battle, p1_accepts: bool, p2_accepts: bool, now: i64)
    requires
        now >= 0,
    ensures
        final(battle)@ =~= double_or_nothing_spec(old(battle)@, p1_accepts, p2_accepts, now),
{
    {
        {
            if p1_accepts && p2_accepts {
                let roll: u8 = simple_random(now, battle.turn_number as u64, 7) % 2;
                if roll == 0 {
                    battle.log_battle_event(LogEntry::DoubleOrNothingBothMiss);
                } else {
                    battle.player1_combo = add_sat16(battle.player1_combo, 2);
                    battle.player2_combo = add_sat16(battle.player2_combo, 2);
                    battle.log_battle_event(LogEntry::DoubleOrNothingBothBoost);
                }
            } else if p1_accepts {
                let roll: u8 = simple_random(now, battle.turn_number as u64, 7) % 2;
                if roll == 0 {
                    battle.player1_miss_count = add_sat16(battle.player1_miss_count, 1);
                    battle.log_battle_event(LogEntry::DoubleOrNothingMiss { side: 1 });
                } else {
                    battle.player1_combo = add_sat16(battle.player1_combo, 3);
                    battle.log_battle_event(LogEntry::DoubleOrNothingBoost { side: 1 });
                }
            } else if p2_accepts {
                let roll: u8 = simple_random(now, battle.turn_number as u64, 8) % 2;
                if roll == 0 {
                    battle.player2_miss_count = add_sat16(battle.player2_miss_count, 1);
                    battle.log_battle_event(LogEntry::DoubleOrNothingMiss { side: 2 });
                } else {
                    battle.player2_combo = add_sat16(battle.player2_combo, 3);
                    battle.log_battle_event(LogEntry::DoubleOrNothingBoost { side: 2 });
                }
            }
        }
    }
}

/// Applies the DeathRoulette effect matrix for the recorded decisions.
fn resolve_death_roulette(battle: &mut Battle, p1_accepts: bool, p2_accepts: bool, now: i64)
    requires
        now >= 0,
    ensures
        final(battle)@ =~= death_roulette_spec(old(battle)@, p1_accepts, p2_accepts, now),
{
    {
        {
            if p1_accepts && p2_accepts {
                let roll: u8 = simple_random(now, battle.turn_number as u64, 9) % 2;
                if roll == 0 {
                    battle.player1_hp = 1;
                    battle.player2_hp = add_sat64(battle.player2_hp, 100);
                    battle.log_battle_event(LogEntry::DeathRouletteBoth { near_death_side: 1 });
                } else {
                    battle.player2_hp = 1;
                    battle.player1_hp = add_sat64(battle.player1_hp, 100);
                    battle.log_battle_event(LogEntry::DeathRouletteBoth { near_death_side: 2 });
                }
            } else if p1_accepts {
                let roll: u8 = simple_random(now, battle.turn_number as u64, 9) % 2;
                if roll == 0 {
                    battle.player1_hp = 1;
                    battle.log_battle_event(LogEntry::DeathRouletteNearDeath { side: 1 });
                } else {
                    battle.player1_hp = 999;
                    battle.log_battle_event(LogEntry::DeathRouletteHeal { side: 1 });
                }
            } else if p2_accepts {
                let roll: u8 = simple_random(now, battle.turn_number as u64, 10) % 2;
                if roll == 0 {
                    battle.player2_hp = 1;
                    battle.log_battle_event(LogEntry::DeathRouletteNearDeath { side: 2 });
                } else {
                    battle.player2_hp = 999;
                    battle.log_battle_event(LogEntry::DeathRouletteHeal { side: 2 });
                }
            }
        }
    }
}

/// Applies a decision-gated wildcard's effect matrix for the recorded
/// decisions and clears the wildcard state.
#[verifier::rlimit(100)]
pub fn resolve_wildcard_with_decisions(battle: &mut Battle, now: i64)
    requires
        now >= 0,
    ensures
        final(battle)@ =~= resolve_wildcard_spec(old(battle)@, now),
{
    let p1_accepts: bool = matches!(battle.wildcard_player1_decision, Some(true));
    let p2_accepts: bool = matches!(battle.wildcard_player2_decision, Some(true));

    match battle.wildcard_type {
        Some(WildcardEvent::DoubleOrNothing) => {
            resolve_double_or_nothing(battle, p1_accepts, p2_accepts, now);
        },
        Some(WildcardEvent::DeathRoulette) => {
            resolve_death_roulette(battle, p1_accepts, p2_accepts, now);
        },
        _ => {},
    }

    battle.wildcard_active = false;
    battle.wildcard_player1_decision = None;
    battle.wildcard_player2_decision = None;
}

/// What `decide_wildcard` yields: the result and the battle after recording
/// one side's accept/decline and, once both decisions are present, resolving.
pub open spec fn decide_wildcard_spec(b: BattleView, is_p1: bool, accept: bool, now: i64) -> (
    Result<(), GameError>,
    BattleView,
) {
    if !b.wildcard_active {
        (Err(GameError::NoActiveWildcard), b)
    } else if now > b.wildcard_decision_deadline {
        (Err(GameError::DecisionTimeout), b)
    } else {
        let b1 = if is_p1 {
            BattleView { wildcard_player1_decision: Some(accept), ..b }
        } else {
            BattleView { wildcard_player2_decision: Some(accept), ..b }
        };
        if b1.wildcard_player1_decision is Some && b1.wildcard_player2_decision is Some {
            (Ok(()), resolve_wildcard_spec(b1, now))
        } else {
            (Ok(()), b1)
        }
    }
}

/// Records one side's accept/decline for the active wildcard; fails when no
/// wildcard is active or the deadline has passed. Once both decisions are
/// recorded, the wildcard resolves in the same call.
pub fn decide_wildcard(battle: &mut Battle, is_player1: bool, accept: bool, now: i64) -> (r: Result<
    (),
    GameError,
>)
    requires
        now >= 0,
    ensures
        (r, final(battle)@) =~= decide_wildcard_spec(old(battle)@, is_player1, accept, now),
        r is Err ==> final(battle)@ =~= old(battle)@,
{
    if !battle.wildcard_active {
        return Err(GameError::NoActiveWildcard);
    }
    if now > battle.wildcard_decision_deadline {
        return Err(GameError::DecisionTimeout);
    }

    if is_player1 {
        battle.wildcard_player1_decision = Some(accept);
    } else {
        battle.wildcard_player2_decision = Some(accept);
    }

    if battle.wildcard_player1_decision.is_some() && battle.wildcard_player2_decision.is_some() {
        resolve_wildcard_with_decisions(battle, now);
    }

    Ok(())
}

/// What `resolve_wildcard_timeout` yields: the result and the battle after
/// missing decisions default to decline and the wildcard resolves.
pub open spec fn wildcard_timeout_spec(b: BattleView, now: i64) -> (
    Result<(), GameError>,
    BattleView,
) {
    if !b.wildcard_active {
        (Err(GameError::NoActiveWildcard), b)
    } else if now <= b.wildcard_decision_deadline {
        (Err(GameError::DecisionNotExpired), b)
    } else {
        let b1 = if b.wildcard_player1_decision is None {
            BattleView { wildcard_player1_decision: Some(false), ..b }.with_log(
                LogEntry::WildcardAutoDeclined { side: 1u8 },
            )
        } else {
            b
        };
        let b2 = if b1.wildcard_player2_decision is None {
            BattleView { wildcard_player2_decision: Some(false), ..b1 }.with_log(
                LogEntry::WildcardAutoDeclined { side: 2u8 },
            )
        } else {
            b1
        };
        (Ok(()), resolve_wildcard_spec(b2, now))
    }
}

/// Resolves an active wildcard whose decision deadline has passed, defaulting
/// each missing decision to decline.
pub fn resolve_wildcard_timeout(battle: &mut Battle, now: i64) -> (r: Result<(), GameError>)
    requires
        now >= 0,
    ensures
        (r, final(battle)@) =~= wildcard_timeout_spec(old(battle)@, now),
        r is Err ==> final(battle)@ =~= old(battle)@,
{
    if !battle.wildcard_active {
        return Err(GameError::NoActiveWildcard);
    }
    if now <= battle.wildcard_decision_deadline {
        return Err(GameError::DecisionNotExpired);
    }

    if battle.wildcard_player1_decision.is_none() {
        battle.wildcard_player1_decision = Some(false);
        battle.log_battle_event(LogEntry::WildcardAutoDeclined { side: 1 });
    }
    if battle.wildcard_player2_decision.is_none() {
        battle.wildcard_player2_decision = Some(false);
        battle.log_battle_event(LogEntry::WildcardAutoDeclined { side: 2 });
    }

    resolve_wildcard_with_decisions(battle, now);

    Ok(())
}

} // verus!
