//! The stance modifier layer: a pure transform of the turn's damage given
//! both stances, applied attacker-stance first and defender-stance second,
//! compounding. A Berserker attacker also takes twenty-five percent of the
//! doubled damage as self-damage.

use vstd::prelude::*;
use crate::battle::{Battle, BattleView};
use crate::sat::{mul_sat64, sat_mul64, sat_sub64, sub_sat64};
use crate::types::BattleStance;

verus! {

/// Damage after the attacker's stance: Aggressive adds thirty percent,
/// Defensive removes thirty, Berserker doubles, Counter adds fifty percent
/// against an Aggressive defender and misses entirely otherwise, Balanced
/// changes nothing.
pub open spec fn attacker_stance_damage(
    damage: u64,
    attacker_stance: BattleStance,
    defender_stance: BattleStance,
) -> u64 {
    match attacker_stance {
        BattleStance::Aggressive => sat_mul64(damage, 130) / 100,
        BattleStance::Defensive => sat_mul64(damage, 70) / 100,
        BattleStance::Berserker => sat_mul64(damage, 2),
        BattleStance::Counter => if defender_stance == BattleStance::Aggressive {
            sat_mul64(damage, 150) / 100
        } else {
            0u64
        },
        BattleStance::Balanced => damage,
    }
}

/// Damage after the defender's stance: Defensive halves it, Aggressive adds
/// fifty percent, the rest change nothing.
pub open spec fn defender_stance_damage(damage: u64, defender_stance: BattleStance) -> u64 {
    match defender_stance {
        BattleStance::Defensive => sat_mul64(damage, 50) / 100,
        BattleStance::Aggressive => sat_mul64(damage, 150) / 100,
        _ => damage,
    }
}

/// Both stance layers: the final damage and the battle record after Berserker
/// self-damage, a quarter of the attacker's doubled damage.
#[verifier::opaque]
pub open spec fn stance_spec(
    damage: u64,
    attacker_stance: BattleStance,
    defender_stance: BattleStance,
    is_p1: bool,
    b: BattleView,
) -> (u64, BattleView) {
    let d1 = attacker_stance_damage(damage, attacker_stance, defender_stance);
    let b1 = if attacker_stance == BattleStance::Berserker {
        let self_damage = sat_mul64(d1, 25) / 100;
        if is_p1 {
            BattleView { player1_hp: sat_sub64(b.player1_hp, self_damage), ..b }
        } else {
            BattleView { player2_hp: sat_sub64(b.player2_hp, self_damage), ..b }
        }
    } else {
        b
    };
    (defender_stance_damage(d1, defender_stance), b1)
}

/// Applies the attacker's and then the defender's stance modifier to the
/// turn's damage, charging Berserker self-damage to the acting side.
pub fn apply_stance_modifiers(
    damage: u64,
    attacker_stance: BattleStance,
    defender_stance: BattleStance,
    is_player1: bool,
    battle: &mut Battle,
) -> (r: u64)
    ensures
        r == stance_spec(damage, attacker_stance, defender_stance, is_player1, old(battle)@).0,
        final(battle)@ =~= stance_spec(
            damage,
            attacker_stance,
            defender_stance,
            is_player1,
            old(battle)@,
        ).1,
        final(battle)@.turn_number == old(battle)@.turn_number,
{
    proof {
        reveal(stance_spec);
    }
    let mut d: u64 = damage;
    match attacker_stance {
        BattleStance::Aggressive => {
            d = mul_sat64(d, 130) / 100;
        },
        BattleStance::Defensive => {
            d = mul_sat64(d, 70) / 100;
        },
        BattleStance::Berserker => {
            d = mul_sat64(d, 2);
            let self_damage: u64 = mul_sat64(d, 25) / 100;
            if is_player1 {
                battle.player1_hp = sub_sat64(battle.player1_hp, self_damage);
            } else {
                battle.player2_hp = sub_sat64(battle.player2_hp, self_damage);
            }
        },
        BattleStance::Counter => {
            if matches!(defender_stance, BattleStance::Aggressive) {
                d = mul_sat64(d, 150) / 100;
            } else {
                d = 0;
            }
        },
        BattleStance::Balanced => {},
    }

    match defender_stance {
        BattleStance::Defensive => {
            d = mul_sat64(d, 50) / 100;
        },
        BattleStance::Aggressive => {
            d = mul_sat64(d, 150) / 100;
        },
        _ => {},
    }

    d
}

} // verus!
