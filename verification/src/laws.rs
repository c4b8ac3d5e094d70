//! The engine's cross-cutting guarantees, stated and proved over the spec
//! transitions: damage never heals the defender, the commit-reveal round
//! trip, idempotent rejection of double commits, the cooldown discipline,
//! and the harmlessness of a suspended wildcard-decision turn.

use vstd::prelude::*;
use crate::battle::{battle_expired, BattleView};
use crate::character::CharacterView;
use crate::commitment::commitment_hash;
use crate::damage::{calc_damage_spec, special_spec};
use crate::stance::stance_spec;
use crate::rng::roll_spec;
use crate::sat::sat_sub64;
use crate::turn::{
    advance_spec, apply_damage_spec, commit_spec, cooldown_spec, dec_cooldown, dot_tick_spec,
    execute_turn_spec, finish_reveal_spec, holds_turn, reveal_proceed_spec, reveal_spec,
    stored_hash, termination_spec, wildcard_chance_spec, wildcard_roll_spec,
};
use crate::types::GameError;
use crate::wildcard::wildcard_apply_spec;

verus! {


/// The damage pipeline stage leaves health, cooldowns, the turn bookkeeping
/// and the recorded wildcard event untouched; only DOT fields, reflection,
/// combos, stances and the wildcard-active flag may change.
proof fn lemma_calc_stage_frame(
    attacker: CharacterView,
    defender: CharacterView,
    b: BattleView,
    is_p1: bool,
    use_special: bool,
    ts: i64,
)
    ensures
        calc_damage_spec(attacker, defender, b, is_p1, use_special, ts).1.player1_hp
            == b.player1_hp,
        calc_damage_spec(attacker, defender, b, is_p1, use_special, ts).1.player2_hp
            == b.player2_hp,
        calc_damage_spec(attacker, defender, b, is_p1, use_special, ts).1.player1_special_cooldown
            == b.player1_special_cooldown,
        calc_damage_spec(attacker, defender, b, is_p1, use_special, ts).1.player2_special_cooldown
            == b.player2_special_cooldown,
        calc_damage_spec(attacker, defender, b, is_p1, use_special, ts).1.turn_number
            == b.turn_number,
        calc_damage_spec(attacker, defender, b, is_p1, use_special, ts).1.current_turn
            == b.current_turn,
        calc_damage_spec(attacker, defender, b, is_p1, use_special, ts).1.wildcard_type
            == b.wildcard_type,
        is_p1 ==> calc_damage_spec(attacker, defender, b, is_p1, use_special, ts).1.player1_dot_turns
            == b.player1_dot_turns && calc_damage_spec(
            attacker,
            defender,
            b,
            is_p1,
            use_special,
            ts,
        ).1.player1_dot_damage == b.player1_dot_damage,
        !is_p1 ==> calc_damage_spec(
            attacker,
            defender,
            b,
            is_p1,
            use_special,
            ts,
        ).1.player2_dot_turns == b.player2_dot_turns && calc_damage_spec(
            attacker,
            defender,
            b,
            is_p1,
            use_special,
            ts,
        ).1.player2_dot_damage == b.player2_dot_damage,
{
    reveal(calc_damage_spec);
    reveal(special_spec);
}

/// The stance stage touches only the acting side's health (Berserker
/// self-damage), and never raises it.
proof fn lemma_stance_stage_frame(
    damage: u64,
    att: crate::types::BattleStance,
    def: crate::types::BattleStance,
    is_p1: bool,
    b: BattleView,
)
    ensures
        stance_spec(damage, att, def, is_p1, b).1.hp_of(!is_p1) == b.hp_of(!is_p1),
        stance_spec(damage, att, def, is_p1, b).1.hp_of(is_p1) <= b.hp_of(is_p1),
        stance_spec(damage, att, def, is_p1, b).1.player1_special_cooldown
            == b.player1_special_cooldown,
        stance_spec(damage, att, def, is_p1, b).1.player2_special_cooldown
            == b.player2_special_cooldown,
        stance_spec(damage, att, def, is_p1, b).1.turn_number == b.turn_number,
        stance_spec(damage, att, def, is_p1, b).1.current_turn == b.current_turn,
        stance_spec(damage, att, def, is_p1, b).1.wildcard_type == b.wildcard_type,
        stance_spec(damage, att, def, is_p1, b).1.wildcard_active == b.wildcard_active,
        stance_spec(damage, att, def, is_p1, b).1.player1_dot_turns == b.player1_dot_turns,
        stance_spec(damage, att, def, is_p1, b).1.player2_dot_turns == b.player2_dot_turns,
        stance_spec(damage, att, def, is_p1, b).1.player1_dot_damage == b.player1_dot_damage,
        stance_spec(damage, att, def, is_p1, b).1.player2_dot_damage == b.player2_dot_damage,
{
    reveal(stance_spec);
}

/// The immediate-effects stage is the identity when no wildcard event is
/// recorded, and never touches cooldowns or the turn bookkeeping.
proof fn lemma_wildcard_stage_frame(damage: u64, b: BattleView, is_p1: bool, ts: i64)
    ensures
        b.wildcard_type is None ==> wildcard_apply_spec(damage, b, is_p1, ts) == (damage, b),
        wildcard_apply_spec(damage, b, is_p1, ts).1.player1_special_cooldown
            == b.player1_special_cooldown,
        wildcard_apply_spec(damage, b, is_p1, ts).1.player2_special_cooldown
            == b.player2_special_cooldown,
        wildcard_apply_spec(damage, b, is_p1, ts).1.turn_number == b.turn_number,
        wildcard_apply_spec(damage, b, is_p1, ts).1.current_turn == b.current_turn,
        wildcard_apply_spec(damage, b, is_p1, ts).1.player1_dot_turns == b.player1_dot_turns,
        wildcard_apply_spec(damage, b, is_p1, ts).1.player2_dot_turns == b.player2_dot_turns,
        wildcard_apply_spec(damage, b, is_p1, ts).1.player1_dot_damage == b.player1_dot_damage,
        wildcard_apply_spec(damage, b, is_p1, ts).1.player2_dot_damage == b.player2_dot_damage,
{
    reveal(wildcard_apply_spec);
}

/// Applying the turn's damage never raises either side's health and leaves
/// cooldowns and the turn bookkeeping untouched.
proof fn lemma_apply_damage_frame(damage: u64, b: BattleView, is_p1: bool)
    ensures
        apply_damage_spec(damage, b, is_p1).hp_of(!is_p1) <= b.hp_of(!is_p1),
        apply_damage_spec(damage, b, is_p1).hp_of(is_p1) <= b.hp_of(is_p1),
        apply_damage_spec(damage, b, is_p1).player1_special_cooldown
            == b.player1_special_cooldown,
        apply_damage_spec(damage, b, is_p1).player2_special_cooldown
            == b.player2_special_cooldown,
        apply_damage_spec(damage, b, is_p1).turn_number == b.turn_number,
        apply_damage_spec(damage, b, is_p1).current_turn == b.current_turn,
        apply_damage_spec(damage, b, is_p1).player1_dot_turns == b.player1_dot_turns,
        apply_damage_spec(damage, b, is_p1).player2_dot_turns == b.player2_dot_turns,
        apply_damage_spec(damage, b, is_p1).player1_dot_damage == b.player1_dot_damage,
        apply_damage_spec(damage, b, is_p1).player2_dot_damage == b.player2_dot_damage,
{
    reveal(apply_damage_spec);
}

/// Cooldown bookkeeping changes only the acting side's counter: to two when
/// the special was used, else down one and never below zero.
proof fn lemma_cooldown_stage_frame(b: BattleView, is_p1: bool, use_special: bool)
    ensures
        cooldown_spec(b, is_p1, use_special).cooldown_of(is_p1) == (if use_special {
            2u8
        } else {
            dec_cooldown(b.cooldown_of(is_p1))
        }),
        cooldown_spec(b, is_p1, use_special).cooldown_of(!is_p1) == b.cooldown_of(!is_p1),
        cooldown_spec(b, is_p1, use_special).player1_hp == b.player1_hp,
        cooldown_spec(b, is_p1, use_special).player2_hp == b.player2_hp,
        cooldown_spec(b, is_p1, use_special).turn_number == b.turn_number,
        cooldown_spec(b, is_p1, use_special).current_turn == b.current_turn,
        cooldown_spec(b, is_p1, use_special).player1_dot_turns == b.player1_dot_turns,
        cooldown_spec(b, is_p1, use_special).player2_dot_turns == b.player2_dot_turns,
        cooldown_spec(b, is_p1, use_special).player1_dot_damage == b.player1_dot_damage,
        cooldown_spec(b, is_p1, use_special).player2_dot_damage == b.player2_dot_damage,
{
    reveal(cooldown_spec);
}

/// The termination check touches only the terminal flag, the winner and the
/// log.
proof fn lemma_termination_frame(b: BattleView)
    ensures
        termination_spec(b).player1_hp == b.player1_hp,
        termination_spec(b).player2_hp == b.player2_hp,
        termination_spec(b).player1_special_cooldown == b.player1_special_cooldown,
        termination_spec(b).player2_special_cooldown == b.player2_special_cooldown,
        termination_spec(b).turn_number == b.turn_number,
        termination_spec(b).current_turn == b.current_turn,
        termination_spec(b).player1_dot_turns == b.player1_dot_turns,
        termination_spec(b).player2_dot_turns == b.player2_dot_turns,
        termination_spec(b).player1_dot_damage == b.player1_dot_damage,
        termination_spec(b).player2_dot_damage == b.player2_dot_damage,
{
    reveal(termination_spec);
}

/// The advance flips the turn indicator, increments the turn counter and
/// clears the wildcard state, touching nothing else.
proof fn lemma_advance_frame(b: BattleView)
    ensures
        advance_spec(b).player1_hp == b.player1_hp,
        advance_spec(b).player2_hp == b.player2_hp,
        advance_spec(b).player1_special_cooldown == b.player1_special_cooldown,
        advance_spec(b).player2_special_cooldown == b.player2_special_cooldown,
        advance_spec(b).turn_number == (b.turn_number + 1) as u32,
        advance_spec(b).current_turn == (if b.current_turn == 1 {
            2u8
        } else {
            1u8
        }),
        advance_spec(b).player1_dot_turns == b.player1_dot_turns,
        advance_spec(b).player2_dot_turns == b.player2_dot_turns,
        advance_spec(b).player1_dot_damage == b.player1_dot_damage,
        advance_spec(b).player2_dot_damage == b.player2_dot_damage,
{
    reveal(advance_spec);
}

/// Names the staged values of one executed turn, so that the public laws can
/// reason stage by stage without unfolding the whole pipeline at once.
proof fn lemma_execute_stages(
    b: BattleView,
    attacker: CharacterView,
    defender: CharacterView,
    is_p1: bool,
    use_special: bool,
    now: i64,
) -> (stages: (u64, BattleView, u64, BattleView, u64, BattleView))
    ensures
        ({
            let (d0, b0, d1, b1, d2, b2) = stages;
            &&& (d0, b0) == calc_damage_spec(attacker, defender, b, is_p1, use_special, now)
            &&& (d1, b1) == stance_spec(
                d0,
                if is_p1 {
                    b0.player1_stance
                } else {
                    b0.player2_stance
                },
                if is_p1 {
                    b0.player2_stance
                } else {
                    b0.player1_stance
                },
                is_p1,
                b0,
            )
            &&& (d2, b2) == (if b1.wildcard_active && b1.wildcard_type is Some {
                wildcard_apply_spec(d1, b1, is_p1, now)
            } else {
                (d1, b1)
            })
            &&& execute_turn_spec(b, attacker, defender, is_p1, use_special, now) == advance_spec(
                termination_spec(cooldown_spec(apply_damage_spec(d2, b2, is_p1), is_p1, use_special)),
            )
        }),
{
    reveal(execute_turn_spec);
    let (d0, b0) = calc_damage_spec(attacker, defender, b, is_p1, use_special, now);
    let (d1, b1) = stance_spec(
        d0,
        if is_p1 {
            b0.player1_stance
        } else {
            b0.player2_stance
        },
        if is_p1 {
            b0.player2_stance
        } else {
            b0.player1_stance
        },
        is_p1,
        b0,
    );
    let (d2, b2) = if b1.wildcard_active && b1.wildcard_type is Some {
        wildcard_apply_spec(d1, b1, is_p1, now)
    } else {
        (d1, b1)
    };
    (d0, b0, d1, b1, d2, b2)
}

/// An executed turn advances the turn counter by exactly one and hands the
/// turn to the other side.
pub proof fn lemma_execute_advances_turn(
    b: BattleView,
    attacker: CharacterView,
    defender: CharacterView,
    is_p1: bool,
    use_special: bool,
    now: i64,
)
    requires
        b.turn_number < u32::MAX,
    ensures
        execute_turn_spec(b, attacker, defender, is_p1, use_special, now).turn_number
            == b.turn_number + 1,
        execute_turn_spec(b, attacker, defender, is_p1, use_special, now).current_turn == (
        if b.current_turn == 1 {
            2u8
        } else {
            1u8
        }),
{
    let (d0, b0, d1, b1, d2, b2) = lemma_execute_stages(
        b,
        attacker,
        defender,
        is_p1,
        use_special,
        now,
    );
    lemma_calc_stage_frame(attacker, defender, b, is_p1, use_special, now);
    lemma_stance_stage_frame(
        d0,
        if is_p1 {
            b0.player1_stance
        } else {
            b0.player2_stance
        },
        if is_p1 {
            b0.player2_stance
        } else {
            b0.player1_stance
        },
        is_p1,
        b0,
    );
    lemma_wildcard_stage_frame(d1, b1, is_p1, now);
    lemma_apply_damage_frame(d2, b2, is_p1);
    lemma_cooldown_stage_frame(apply_damage_spec(d2, b2, is_p1), is_p1, use_special);
    lemma_termination_frame(cooldown_spec(apply_damage_spec(d2, b2, is_p1), is_p1, use_special));
    lemma_advance_frame(
        termination_spec(cooldown_spec(apply_damage_spec(d2, b2, is_p1), is_p1, use_special)),
    );
}

/// A turn executed while no wildcard event is recorded never raises the
/// defender's battle-local health: the damage pipeline only ever subtracts
/// from it.
pub proof fn lemma_turn_damage_monotonic(
    b: BattleView,
    attacker: CharacterView,
    defender: CharacterView,
    is_p1: bool,
    use_special: bool,
    now: i64,
)
    requires
        b.wildcard_type is None,
    ensures
        execute_turn_spec(b, attacker, defender, is_p1, use_special, now).hp_of(!is_p1) <= b.hp_of(
            !is_p1,
        ),
{
    let (d0, b0, d1, b1, d2, b2) = lemma_execute_stages(
        b,
        attacker,
        defender,
        is_p1,
        use_special,
        now,
    );
    lemma_calc_stage_frame(attacker, defender, b, is_p1, use_special, now);
    lemma_stance_stage_frame(
        d0,
        if is_p1 {
            b0.player1_stance
        } else {
            b0.player2_stance
        },
        if is_p1 {
            b0.player2_stance
        } else {
            b0.player1_stance
        },
        is_p1,
        b0,
    );
    lemma_wildcard_stage_frame(d1, b1, is_p1, now);
    lemma_apply_damage_frame(d2, b2, is_p1);
    lemma_cooldown_stage_frame(apply_damage_spec(d2, b2, is_p1), is_p1, use_special);
    lemma_termination_frame(cooldown_spec(apply_damage_spec(d2, b2, is_p1), is_p1, use_special));
    lemma_advance_frame(
        termination_spec(cooldown_spec(apply_damage_spec(d2, b2, is_p1), is_p1, use_special)),
    );
}

/// The commit-reveal round trip: on a live, unexpired battle, in turn, with
/// no cooldown in the way, the reveal succeeds exactly when the hash of the
/// revealed stance and salt is bit-identical to the stored commitment, and a
/// mismatch is reported as InvalidStanceReveal with the battle unchanged.
pub proof fn lemma_reveal_round_trip(
    b: BattleView,
    attacker: CharacterView,
    defender: CharacterView,
    is_p1: bool,
    stance: crate::types::BattleStance,
    salt: u64,
    use_special: bool,
    now: i64,
)
    requires
        !b.is_finished,
        !battle_expired(b, now),
        holds_turn(b, is_p1),
        use_special ==> b.cooldown_of(is_p1) == 0,
    ensures
        reveal_spec(b, attacker, defender, is_p1, stance, salt, use_special, now).0 is Ok
            <==> stored_hash(b, is_p1) == commitment_hash(stance, salt),
        stored_hash(b, is_p1) != commitment_hash(stance, salt) ==> reveal_spec(
            b,
            attacker,
            defender,
            is_p1,
            stance,
            salt,
            use_special,
            now,
        ) == (Err::<(), GameError>(GameError::InvalidStanceReveal), b),
{
}

/// Committing a hash and then revealing: the reveal succeeds exactly when
/// the committed hash is the hash of the revealed stance and salt.
pub proof fn lemma_commit_then_reveal(
    b: BattleView,
    attacker: CharacterView,
    defender: CharacterView,
    is_p1: bool,
    committed: Seq<u8>,
    stance: crate::types::BattleStance,
    salt: u64,
    use_special: bool,
    now1: i64,
    now2: i64,
)
    requires
        commit_spec(b, is_p1, committed, now1).0 is Ok,
        !battle_expired(b, now2),
        use_special ==> b.cooldown_of(is_p1) == 0,
    ensures
        reveal_spec(
            commit_spec(b, is_p1, committed, now1).1,
            attacker,
            defender,
            is_p1,
            stance,
            salt,
            use_special,
            now2,
        ).0 is Ok <==> committed == commitment_hash(stance, salt),
{
}

/// Idempotence of rejection: once a side has committed in a turn, a second
/// commit by the same side in the same turn fails with AlreadyCommitted,
/// whatever hash it carries, and leaves the battle unchanged.
pub proof fn lemma_commit_twice_rejected(
    b: BattleView,
    is_p1: bool,
    first_hash: Seq<u8>,
    second_hash: Seq<u8>,
    now1: i64,
    now2: i64,
)
    requires
        commit_spec(b, is_p1, first_hash, now1).0 is Ok,
        !battle_expired(b, now2),
    ensures
        commit_spec(commit_spec(b, is_p1, first_hash, now1).1, is_p1, second_hash, now2) == (
        Err::<(), GameError>(GameError::AlreadyCommitted),
        commit_spec(b, is_p1, first_hash, now1).1,
        ),
{
}

/// The cooldown discipline: a turn that uses the special leaves the acting
/// side's cooldown at exactly two; one that does not decrements it by one,
/// never below zero; and the opponent's cooldown is untouched either way.
pub proof fn lemma_cooldown_discipline(
    b: BattleView,
    attacker: CharacterView,
    defender: CharacterView,
    is_p1: bool,
    use_special: bool,
    now: i64,
)
    ensures
        use_special ==> execute_turn_spec(b, attacker, defender, is_p1, use_special, now)
            .cooldown_of(is_p1) == 2,
        !use_special ==> execute_turn_spec(b, attacker, defender, is_p1, use_special, now)
            .cooldown_of(is_p1) == dec_cooldown(b.cooldown_of(is_p1)),
        execute_turn_spec(b, attacker, defender, is_p1, use_special, now).cooldown_of(!is_p1)
            == b.cooldown_of(!is_p1),
{
    let (d0, b0, d1, b1, d2, b2) = lemma_execute_stages(
        b,
        attacker,
        defender,
        is_p1,
        use_special,
        now,
    );
    lemma_calc_stage_frame(attacker, defender, b, is_p1, use_special, now);
    lemma_stance_stage_frame(
        d0,
        if is_p1 {
            b0.player1_stance
        } else {
            b0.player2_stance
        },
        if is_p1 {
            b0.player2_stance
        } else {
            b0.player1_stance
        },
        is_p1,
        b0,
    );
    lemma_wildcard_stage_frame(d1, b1, is_p1, now);
    lemma_apply_damage_frame(d2, b2, is_p1);
    lemma_cooldown_stage_frame(apply_damage_spec(d2, b2, is_p1), is_p1, use_special);
    lemma_termination_frame(cooldown_spec(apply_damage_spec(d2, b2, is_p1), is_p1, use_special));
    lemma_advance_frame(
        termination_spec(cooldown_spec(apply_damage_spec(d2, b2, is_p1), is_p1, use_special)),
    );
}

/// The damage-over-time discipline: on a successful reveal by the acting
/// side, with no wildcard event recorded and this turn's trigger roll under
/// neither class's threshold, a pending DOT charges its full amount against
/// the acting side's health at the start of the turn and spends exactly one
/// remaining turn, while the amount itself is kept for the following ticks;
/// with no turns remaining nothing is charged, and in either case the acting
/// side's health can only fall further within its own turn.
pub proof fn lemma_dot_discipline(
    b: BattleView,
    attacker: CharacterView,
    defender: CharacterView,
    is_p1: bool,
    stance: crate::types::BattleStance,
    salt: u64,
    use_special: bool,
    now: i64,
)
    requires
        b.wildcard_type is None,
        roll_spec(now, b.turn_number as u64, 1) % 100 >= wildcard_chance_spec(
            attacker.character_class,
        ),
        reveal_spec(b, attacker, defender, is_p1, stance, salt, use_special, now).0 is Ok,
    ensures
        ({
            let bf = reveal_spec(b, attacker, defender, is_p1, stance, salt, use_special, now).1;
            let dot_turns = if is_p1 {
                b.player1_dot_turns
            } else {
                b.player2_dot_turns
            };
            let dot_damage = if is_p1 {
                b.player1_dot_damage
            } else {
                b.player2_dot_damage
            };
            let dot_turns_after = if is_p1 {
                bf.player1_dot_turns
            } else {
                bf.player2_dot_turns
            };
            let dot_damage_after = if is_p1 {
                bf.player1_dot_damage
            } else {
                bf.player2_dot_damage
            };
            &&& dot_damage_after == dot_damage
            &&& dot_turns > 0 ==> dot_turns_after == dot_turns - 1 && bf.hp_of(is_p1)
                <= sat_sub64(b.hp_of(is_p1), dot_damage)
            &&& dot_turns == 0 ==> dot_turns_after == 0 && bf.hp_of(is_p1) <= b.hp_of(is_p1)
        }),
{
    reveal(reveal_proceed_spec);
    reveal(dot_tick_spec);
    reveal(wildcard_roll_spec);
    let b1 = if is_p1 {
        BattleView { player1_stance: stance, ..b }
    } else {
        BattleView { player2_stance: stance, ..b }
    };
    let b2 = dot_tick_spec(b1, is_p1);
    let b3 = if attacker.character_class == crate::types::CharacterClass::Trickster {
        b2.with_log(crate::types::LogEntry::TricksterWildcardBoost)
    } else {
        b2
    };
    let (suspended, b4) = wildcard_roll_spec(b3, attacker.character_class, now);
    assert(!suspended && b4 == b3);

    let (d0, b0, d1, bs1, d2, bs2) = lemma_execute_stages(
        b4,
        attacker,
        defender,
        is_p1,
        use_special,
        now,
    );
    lemma_calc_stage_frame(attacker, defender, b4, is_p1, use_special, now);
    lemma_stance_stage_frame(
        d0,
        if is_p1 {
            b0.player1_stance
        } else {
            b0.player2_stance
        },
        if is_p1 {
            b0.player2_stance
        } else {
            b0.player1_stance
        },
        is_p1,
        b0,
    );
    lemma_wildcard_stage_frame(d1, bs1, is_p1, now);
    lemma_apply_damage_frame(d2, bs2, is_p1);
    lemma_cooldown_stage_frame(apply_damage_spec(d2, bs2, is_p1), is_p1, use_special);
    lemma_termination_frame(cooldown_spec(apply_damage_spec(d2, bs2, is_p1), is_p1, use_special));
    lemma_advance_frame(
        termination_spec(cooldown_spec(apply_damage_spec(d2, bs2, is_p1), is_p1, use_special)),
    );
}

/// A reveal that suspends on a decision-gated wildcard applies no damage:
/// when the call succeeds without advancing the turn counter and the acting
/// side has no pending DOT, both sides' battle-local health, both combo
/// counters and both commitments are exactly as they were.
pub proof fn lemma_suspended_reveal_preserves_health(
    b: BattleView,
    attacker: CharacterView,
    defender: CharacterView,
    is_p1: bool,
    stance: crate::types::BattleStance,
    salt: u64,
    use_special: bool,
    now: i64,
)
    requires
        b.turn_number < u32::MAX,
        (if is_p1 {
            b.player1_dot_turns
        } else {
            b.player2_dot_turns
        }) == 0,
        reveal_spec(b, attacker, defender, is_p1, stance, salt, use_special, now).0 is Ok,
        reveal_spec(b, attacker, defender, is_p1, stance, salt, use_special, now).1.turn_number
            == b.turn_number,
    ensures
        reveal_spec(b, attacker, defender, is_p1, stance, salt, use_special, now).1.player1_hp
            == b.player1_hp,
        reveal_spec(b, attacker, defender, is_p1, stance, salt, use_special, now).1.player2_hp
            == b.player2_hp,
        reveal_spec(b, attacker, defender, is_p1, stance, salt, use_special, now).1.player1_combo
            == b.player1_combo,
        reveal_spec(b, attacker, defender, is_p1, stance, salt, use_special, now).1.player2_combo
            == b.player2_combo,
        reveal_spec(
            b,
            attacker,
            defender,
            is_p1,
            stance,
            salt,
            use_special,
            now,
        ).1.player1_stance_committed == b.player1_stance_committed,
        reveal_spec(
            b,
            attacker,
            defender,
            is_p1,
            stance,
            salt,
            use_special,
            now,
        ).1.player2_stance_committed == b.player2_stance_committed,
        reveal_spec(b, attacker, defender, is_p1, stance, salt, use_special, now).1.wildcard_active,
{
    reveal(reveal_proceed_spec);
    reveal(dot_tick_spec);
    reveal(wildcard_roll_spec);
    let bf = reveal_spec(b, attacker, defender, is_p1, stance, salt, use_special, now).1;
    let b1 = if is_p1 {
        BattleView { player1_stance: stance, ..b }
    } else {
        BattleView { player2_stance: stance, ..b }
    };
    let b2 = dot_tick_spec(b1, is_p1);
    let b3 = if attacker.character_class == crate::types::CharacterClass::Trickster {
        b2.with_log(crate::types::LogEntry::TricksterWildcardBoost)
    } else {
        b2
    };
    let (suspended, b4) = wildcard_roll_spec(b3, attacker.character_class, now);
    if !suspended {
        lemma_execute_advances_turn(b4, attacker, defender, is_p1, use_special, now);
        assert(bf == finish_reveal_spec(
            execute_turn_spec(b4, attacker, defender, is_p1, use_special, now),
            now,
        ));
        assert(bf.turn_number == b.turn_number + 1);
        assert(false);
    }
}

} // verus!
