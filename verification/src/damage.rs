//! The damage pipeline: base roll with level bonus, critical and instant-kill
//! checks, combo bonus, special ability, flat defense and the dodge check.
//! The pipeline yields the damage value and the battle-record side effects of
//! special abilities; percentages truncate and every step saturates.

use vstd::prelude::*;
use crate::battle::{Battle, BattleView};
use crate::character::{Character, CharacterView};
use crate::rng::{roll_spec, simple_random};
use crate::sat::{add_sat16, add_sat64, mul_sat64, sat_add16, sat_add64, sat_mul64, sat_sub64, sub_sat64};
use crate::types::{CharacterClass, WildcardEvent};

verus! {

/// The base damage of a turn: the attacker's minimum plus a rolled share of
/// the damage range, plus a level bonus of two per level past the first.
pub open spec fn base_damage_spec(attacker: CharacterView, turn: u32, ts: i64) -> u64 {
    let roll = roll_spec(ts, turn as u64, 3) as int;
    let range = attacker.base_damage_max - attacker.base_damage_min;
    ((attacker.base_damage_min + (roll % (range + 1))) + (attacker.level - 1) * 2) as u64
}

/// The attacker's critical chance, raised by five per recorded miss on the
/// acting side while a GamblersFallacy wildcard is the last rolled event.
pub open spec fn effective_crit_chance(
    attacker: CharacterView,
    b: BattleView,
    is_p1: bool,
) -> u64 {
    if b.wildcard_type == Some(WildcardEvent::GamblersFallacy) {
        (attacker.crit_chance as u64 + (if is_p1 {
            b.player1_miss_count
        } else {
            b.player2_miss_count
        }) * 5) as u64
    } else {
        attacker.crit_chance as u64
    }
}

/// Whether the turn's critical roll lands.
pub open spec fn crit_lands(attacker: CharacterView, b: BattleView, is_p1: bool, ts: i64) -> bool {
    ((roll_spec(ts, b.turn_number as u64, 4) % 100) as u64) < effective_crit_chance(
        attacker,
        b,
        is_p1,
    )
}

/// Damage after the class's critical multiplier: Assassins triple, Tricksters
/// double and add twenty flat, every other class doubles.
pub open spec fn crit_damage(class: CharacterClass, damage: u64) -> u64 {
    match class {
        CharacterClass::Assassin => sat_mul64(damage, 3),
        CharacterClass::Trickster => sat_add64(sat_mul64(damage, 2), 20),
        _ => sat_mul64(damage, 2),
    }
}

/// Whether the instant-kill roll lands: only reachable on a critical while
/// the defender's battle-local health is below a fifth of its maximum.
pub open spec fn instant_kill_lands(
    defender: CharacterView,
    b: BattleView,
    is_p1: bool,
    ts: i64,
) -> bool {
    let defender_hp = b.hp_of(!is_p1);
    &&& defender_hp < sat_mul64(defender.max_hp, 20) / 100
    &&& (roll_spec(ts, b.turn_number as u64, 5) % 100) < 5
}

/// Damage after the combo bonus: fifteen percent per combo point, truncated.
pub open spec fn combo_damage(damage: u64, combo: u16) -> u64 {
    if combo > 0 {
        sat_add64(damage, sat_mul64(sat_mul64(damage, 15), combo as u64) / 100)
    } else {
        damage
    }
}

/// The special ability of a class: the damage multiplier and the battle side
/// effects. Warriors double, Assassins triple; Mages double and arm a
/// three-turn, fifteen-damage-per-turn DOT on the defender; Tanks keep the
/// damage and gain fifty percent reflection; Tricksters roll one of four
/// effects (steal the opponent's combo, swap both stances, a triple
/// multiplier, or arming a follow-up wildcard).
#[verifier::opaque]
pub open spec fn special_spec(
    class: CharacterClass,
    damage: u64,
    b: BattleView,
    is_p1: bool,
    ts: i64,
) -> (u64, BattleView) {
    match class {
        CharacterClass::Warrior => (sat_mul64(damage, 2), b),
        CharacterClass::Assassin => (sat_mul64(damage, 3), b),
        CharacterClass::Mage => (
            sat_mul64(damage, 2),
            if is_p1 {
                BattleView { player2_dot_damage: 15u64, player2_dot_turns: 3u8, ..b }
            } else {
                BattleView { player1_dot_damage: 15u64, player1_dot_turns: 3u8, ..b }
            },
        ),
        CharacterClass::Tank => (
            damage,
            if is_p1 {
                BattleView { player1_reflection: 50u16, ..b }
            } else {
                BattleView { player2_reflection: 50u16, ..b }
            },
        ),
        CharacterClass::Trickster => {
            let effect = roll_spec(ts, b.turn_number as u64, 11) % 4;
            if effect == 0 {
                (sat_mul64(damage, 2), b.steal_combo(is_p1))
            } else if effect == 1 {
                (
                    sat_mul64(damage, 2),
                    BattleView {
                        player1_stance: b.player2_stance,
                        player2_stance: b.player1_stance,
                        ..b
                    },
                )
            } else if effect == 2 {
                (sat_mul64(damage, 3), b)
            } else {
                (sat_mul64(damage, 2), BattleView { wildcard_active: true, ..b })
            }
        },
    }
}

/// Whether the defender's dodge roll lands, zeroing the damage.
pub open spec fn dodge_lands(defender: CharacterView, turn: u32, ts: i64) -> bool {
    ((roll_spec(ts, turn as u64, 6) % 100) as u64) < defender.dodge_chance as u64
}

/// The whole pipeline: the damage dealt this turn and the battle record after
/// the special ability's side effects.
#[verifier::opaque]
pub open spec fn calc_damage_spec(
    attacker: CharacterView,
    defender: CharacterView,
    b: BattleView,
    is_p1: bool,
    use_special: bool,
    ts: i64,
) -> (u64, BattleView) {
    let d0 = base_damage_spec(attacker, b.turn_number, ts);
    let d1 = if crit_lands(attacker, b, is_p1, ts) {
        if instant_kill_lands(defender, b, is_p1, ts) {
            b.hp_of(!is_p1)
        } else {
            crit_damage(attacker.character_class, d0)
        }
    } else {
        d0
    };
    let d2 = combo_damage(d1, b.combo_of(is_p1));
    let (d3, b3) = if use_special {
        special_spec(attacker.character_class, d2, b, is_p1, ts)
    } else {
        (d2, b)
    };
    let d4 = sat_sub64(d3, defender.defense as u64);
    let d5 = if dodge_lands(defender, b.turn_number, ts) {
        0u64
    } else {
        d4
    };
    (d5, b3)
}

/// Applies the acting class's special ability: multiplies the damage and
/// records the battle side effects.
fn apply_special(
    battle: &mut Battle,
    class: CharacterClass,
    damage: u64,
    is_player1: bool,
    timestamp: i64,
) -> (r: u64)
    requires
        timestamp >= 0,
    ensures
        r == special_spec(class, damage, old(battle)@, is_player1, timestamp).0,
        final(battle)@ =~= special_spec(class, damage, old(battle)@, is_player1, timestamp).1,
        final(battle)@.turn_number == old(battle)@.turn_number,
{
    proof {
        reveal(special_spec);
    }
    match class {
        CharacterClass::Warrior => mul_sat64(damage, 2),
        CharacterClass::Assassin => mul_sat64(damage, 3),
        CharacterClass::Mage => {
            if is_player1 {
                battle.player2_dot_damage = 15;
                battle.player2_dot_turns = 3;
            } else {
                battle.player1_dot_damage = 15;
                battle.player1_dot_turns = 3;
            }
            mul_sat64(damage, 2)
        },
        CharacterClass::Tank => {
            if is_player1 {
                battle.player1_reflection = 50;
            } else {
                battle.player2_reflection = 50;
            }
            damage
        },
        CharacterClass::Trickster => {
            let effect_roll: u8 = simple_random(timestamp, battle.turn_number as u64, 11) % 4;
            if effect_roll == 0 {
                if is_player1 {
                    let stolen: u16 = battle.player2_combo;
                    battle.player1_combo = add_sat16(battle.player1_combo, stolen);
                    battle.player2_combo = 0;
                } else {
                    let stolen: u16 = battle.player1_combo;
                    battle.player2_combo = add_sat16(battle.player2_combo, stolen);
                    battle.player1_combo = 0;
                }
                mul_sat64(damage, 2)
            } else if effect_roll == 1 {
                let temp = battle.player1_stance;
                battle.player1_stance = battle.player2_stance;
                battle.player2_stance = temp;
                mul_sat64(damage, 2)
            } else if effect_roll == 2 {
                mul_sat64(damage, 3)
            } else {
                battle.wildcard_active = true;
                mul_sat64(damage, 2)
            }
        },
    }
}

/// Stitches the staged pipeline values together into `calc_damage_spec`.
proof fn lemma_calc_damage_compose(
    attacker: CharacterView,
    defender: CharacterView,
    b: BattleView,
    is_p1: bool,
    use_special: bool,
    ts: i64,
    d1: u64,
    d2: u64,
    d3: u64,
    bf: BattleView,
    damage: u64,
)
    requires
        d1 == (if crit_lands(attacker, b, is_p1, ts) {
            if instant_kill_lands(defender, b, is_p1, ts) {
                b.hp_of(!is_p1)
            } else {
                crit_damage(attacker.character_class, base_damage_spec(attacker, b.turn_number, ts))
            }
        } else {
            base_damage_spec(attacker, b.turn_number, ts)
        }),
        d2 == combo_damage(d1, b.combo_of(is_p1)),
        (d3, bf) == (if use_special {
            special_spec(attacker.character_class, d2, b, is_p1, ts)
        } else {
            (d2, b)
        }),
        damage == (if dodge_lands(defender, b.turn_number, ts) {
            0u64
        } else {
            sat_sub64(d3, defender.defense as u64)
        }),
    ensures
        (damage, bf) == calc_damage_spec(attacker, defender, b, is_p1, use_special, ts),
{
    reveal(calc_damage_spec);
}

/// Runs the damage pipeline for the acting side, applying special-ability
/// side effects to the battle record and returning the damage to deal.
#[verifier::rlimit(100)]
pub fn calculate_damage(
    attacker: &Character,
    defender: &Character,
    battle: &mut Battle,
    is_player1: bool,
    use_special: bool,
    timestamp: i64,
) -> (damage: u64)
    requires
        attacker@.wf(),
        timestamp >= 0,
    ensures
        damage == calc_damage_spec(
            attacker@,
            defender@,
            old(battle)@,
            is_player1,
            use_special,
            timestamp,
        ).0,
        final(battle)@ =~= calc_damage_spec(
            attacker@,
            defender@,
            old(battle)@,
            is_player1,
            use_special,
            timestamp,
        ).1,
        final(battle)@.turn_number == old(battle)@.turn_number,
{
    let ghost b0 = battle@;
    let damage_range: u16 = attacker.base_damage_max - attacker.base_damage_min;
    let roll: u64 = simple_random(timestamp, battle.turn_number as u64, 3) as u64;
    let base_damage: u64 = attacker.base_damage_min as u64 + (roll % (damage_range as u64 + 1));
    let level_bonus: u64 = (attacker.level as u64 - 1) * 2;
    let mut damage: u64 = base_damage + level_bonus;
    assert(damage == base_damage_spec(attacker@, b0.turn_number, timestamp));

    let crit_roll: u8 = simple_random(timestamp, battle.turn_number as u64, 4) % 100;
    let mut crit_chance: u64 = attacker.crit_chance as u64;
    if matches!(battle.wildcard_type, Some(WildcardEvent::GamblersFallacy)) {
        let miss_count: u16 = if is_player1 {
            battle.player1_miss_count
        } else {
            battle.player2_miss_count
        };
        crit_chance = crit_chance + miss_count as u64 * 5;
    }

    if (crit_roll as u64) < crit_chance {
        damage = match attacker.character_class {
            CharacterClass::Assassin => mul_sat64(damage, 3),
            CharacterClass::Trickster => add_sat64(mul_sat64(damage, 2), 20),
            _ => mul_sat64(damage, 2),
        };

        let defender_hp: u64 = if is_player1 {
            battle.player2_hp
        } else {
            battle.player1_hp
        };
        if defender_hp < mul_sat64(defender.max_hp, 20) / 100 {
            let instant_kill_roll: u8 = simple_random(timestamp, battle.turn_number as u64, 5)
                % 100;
            if instant_kill_roll < 5 {
                damage = defender_hp;
            }
        }
    }

    assert(damage == (if crit_lands(attacker@, b0, is_player1, timestamp) {
        if instant_kill_lands(defender@, b0, is_player1, timestamp) {
            b0.hp_of(!is_player1)
        } else {
            crit_damage(attacker@.character_class, base_damage_spec(attacker@, b0.turn_number, timestamp))
        }
    } else {
        base_damage_spec(attacker@, b0.turn_number, timestamp)
    }));
    let ghost d1 = damage;

    let combo: u16 = if is_player1 {
        battle.player1_combo
    } else {
        battle.player2_combo
    };
    if combo > 0 {
        let combo_bonus: u64 = mul_sat64(mul_sat64(damage, 15), combo as u64) / 100;
        damage = add_sat64(damage, combo_bonus);
    }

    assert(damage == combo_damage(d1, b0.combo_of(is_player1)));
    let ghost d2 = damage;

    if use_special {
        damage = apply_special(battle, attacker.character_class, damage, is_player1, timestamp);
    }
    assert(damage == (if use_special {
        special_spec(attacker@.character_class, d2, b0, is_player1, timestamp).0
    } else {
        d2
    }));
    assert(battle@ =~= (if use_special {
        special_spec(attacker@.character_class, d2, b0, is_player1, timestamp).1
    } else {
        b0
    }));

    let ghost d3 = damage;
    damage = sub_sat64(damage, defender.defense as u64);

    let dodge_roll: u8 = simple_random(timestamp, battle.turn_number as u64, 6) % 100;
    if (dodge_roll as u64) < defender.dodge_chance as u64 {
        damage = 0;
    }
    proof {
        lemma_calc_damage_compose(
            attacker@,
            defender@,
            b0,
            is_player1,
            use_special,
            timestamp,
            d1,
            d2,
            d3,
            battle@,
            damage,
        );
    }
    damage
}

} // verus!
