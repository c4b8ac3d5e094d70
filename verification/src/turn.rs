//! The turn state machine: the stance commitment phase, the reveal that
//! verifies the commitment and executes (or suspends) the turn, the turn
//! execution core shared with the AI path, turn-timeout forfeiture and the
//! scripted opponent's heuristic turn.

use vstd::prelude::*;
use crate::battle::{battle_expired, Battle, BattleView};
use crate::character::{Character, CharacterView};
use crate::commitment::{bytes_eq, commitment_hash, compute_commitment};
use crate::damage::{calc_damage_spec, calculate_damage};
use crate::rng::{roll_spec, simple_random};
use crate::sat::{mul_sat64, sat_mul64, sat_sub64, sub_sat64};
use crate::stance::{apply_stance_modifiers, stance_spec};
use crate::types::{BattleStance, CharacterClass, GameError, LogEntry, WildcardEvent};
use crate::wildcard::{
    apply_wildcard_effects, requires_decision, requires_decision_spec, wildcard_apply_spec,
};

verus! {

/// Whether the given side holds the turn.
pub open spec fn holds_turn(b: BattleView, is_p1: bool) -> bool {
    (is_p1 && b.current_turn == 1) || (!is_p1 && b.current_turn == 2)
}

/// The stance commitment hash stored for the given side.
pub open spec fn stored_hash(b: BattleView, is_p1: bool) -> Seq<u8> {
    if is_p1 {
        b.player1_stance_hash
    } else {
        b.player2_stance_hash
    }
}

/// Whether the given side has committed a stance this turn.
pub open spec fn committed_of(b: BattleView, is_p1: bool) -> bool {
    if is_p1 {
        b.player1_stance_committed
    } else {
        b.player2_stance_committed
    }
}

/// A cooldown counter one turn later: down one, never below zero.
pub open spec fn dec_cooldown(cd: u8) -> u8 {
    if cd == 0 {
        0u8
    } else {
        (cd - 1) as u8
    }
}

/// What `commit_stance` yields: the result and the battle after storing the
/// hash for the committing side.
pub open spec fn commit_spec(b: BattleView, is_p1: bool, stance_hash: Seq<u8>, now: i64) -> (
    Result<(), GameError>,
    BattleView,
) {
    if b.is_finished {
        (Err(GameError::BattleAlreadyFinished), b)
    } else if battle_expired(b, now) {
        (Err(GameError::BattleExpired), b)
    } else if !holds_turn(b, is_p1) {
        (Err(GameError::NotYourTurn), b)
    } else if committed_of(b, is_p1) {
        (Err(GameError::AlreadyCommitted), b)
    } else {
        let b1 = if is_p1 {
            BattleView {
                player1_stance_hash: stance_hash,
                player1_stance_committed: true,
                ..b
            }
        } else {
            BattleView {
                player2_stance_hash: stance_hash,
                player2_stance_committed: true,
                ..b
            }
        };
        (Ok(()), BattleView { last_action_time: now, ..b1 })
    }
}

/// Stores a stance commitment hash for the side holding the turn. Fails on a
/// finished or expired battle, out of turn, or when that side has already
/// committed this turn (regardless of the hash value).
pub fn commit_stance(battle: &mut Battle, is_player1: bool, stance_hash: Vec<u8>, now: i64) -> (r:
    Result<(), GameError>)
    requires
        old(battle)@.wf(),
        now >= 0,
    ensures
        (r, final(battle)@) =~= commit_spec(old(battle)@, is_player1, stance_hash@, now),
        r is Err ==> final(battle)@ =~= old(battle)@,
        r is Ok <==> !old(battle)@.is_finished && !battle_expired(old(battle)@, now) && holds_turn(
            old(battle)@,
            is_player1,
        ) && !committed_of(old(battle)@, is_player1),
{
    if battle.is_finished {
        return Err(GameError::BattleAlreadyFinished);
    }
    match battle.check_battle_timeout(now) {
        Err(e) => {
            return Err(e);
        },
        Ok(()) => {},
    }
    if !((is_player1 && battle.current_turn == 1) || (!is_player1 && battle.current_turn == 2)) {
        return Err(GameError::NotYourTurn);
    }
    if is_player1 {
        if battle.player1_stance_committed {
            return Err(GameError::AlreadyCommitted);
        }
        battle.player1_stance_hash = stance_hash;
        battle.player1_stance_committed = true;
    } else {
        if battle.player2_stance_committed {
            return Err(GameError::AlreadyCommitted);
        }
        battle.player2_stance_hash = stance_hash;
        battle.player2_stance_committed = true;
    }
    battle.last_action_time = now;
    Ok(())
}

/// The battle after damage lands: the defender's battle-local health drops by
/// the damage, and an attacker with an active reflection buff takes its
/// percentage of the damage back.
#[verifier::opaque]
pub open spec fn apply_damage_spec(damage: u64, b: BattleView, is_p1: bool) -> BattleView {
    let b1 = if is_p1 {
        let ba = BattleView { player2_hp: sat_sub64(b.player2_hp, damage), ..b };
        if b.player1_reflection > 0 {
            let reflected = sat_mul64(damage, b.player1_reflection as u64) / 100;
            BattleView { player1_hp: sat_sub64(ba.player1_hp, reflected), ..ba }.with_log(
                LogEntry::ReflectedDamage { side: 1u8, amount: reflected },
            )
        } else {
            ba
        }
    } else {
        let ba = BattleView { player1_hp: sat_sub64(b.player1_hp, damage), ..b };
        if b.player2_reflection > 0 {
            let reflected = sat_mul64(damage, b.player2_reflection as u64) / 100;
            BattleView { player2_hp: sat_sub64(ba.player2_hp, reflected), ..ba }.with_log(
                LogEntry::ReflectedDamage { side: 2u8, amount: reflected },
            )
        } else {
            ba
        }
    };
    b1.with_log(LogEntry::DamageDealt { amount: damage })
}

/// The battle after the acting side's cooldown bookkeeping: using the special
/// sets its cooldown to three before the unconditional decrement of one, so a
/// turn that uses it ends with the counter at two; the opponent's counter is
/// untouched.
#[verifier::opaque]
pub open spec fn cooldown_spec(b: BattleView, is_p1: bool, use_special: bool) -> BattleView {
    if is_p1 {
        let cd = if use_special {
            3u8
        } else {
            b.player1_special_cooldown
        };
        BattleView { player1_special_cooldown: dec_cooldown(cd), ..b }
    } else {
        let cd = if use_special {
            3u8
        } else {
            b.player2_special_cooldown
        };
        BattleView { player2_special_cooldown: dec_cooldown(cd), ..b }
    }
}

/// The battle after the termination check: when either side's health is zero
/// the battle is finished and the side with health left wins.
#[verifier::opaque]
pub open spec fn termination_spec(b: BattleView) -> BattleView {
    if b.player1_hp == 0 || b.player2_hp == 0 {
        let w = if b.player1_hp > 0 {
            1u8
        } else {
            2u8
        };
        BattleView { is_finished: true, winner: Some(w), ..b }.with_log(
            LogEntry::BattleFinished { winner: w },
        )
    } else {
        b
    }
}

/// The battle after the turn advances: the turn indicator flips, the turn
/// counter increments and the wildcard state is cleared.
#[verifier::opaque]
pub open spec fn advance_spec(b: BattleView) -> BattleView {
    BattleView {
        current_turn: if b.current_turn == 1 {
            2u8
        } else {
            1u8
        },
        turn_number: (b.turn_number + 1) as u32,
        wildcard_active: false,
        wildcard_player1_decision: None,
        wildcard_player2_decision: None,
        ..b
    }
}

/// One executed (non-suspended) turn: the damage pipeline, the stance layer
/// (stances read after the pipeline, which may have swapped them), pending
/// immediate wildcard effects, damage application with reflection, cooldown
/// bookkeeping, the termination check and the turn advance.
#[verifier::opaque]
pub open spec fn execute_turn_spec(
    b: BattleView,
    attacker: CharacterView,
    defender: CharacterView,
    is_p1: bool,
    use_special: bool,
    now: i64,
) -> BattleView {
    let (d0, b0) = calc_damage_spec(attacker, defender, b, is_p1, use_special, now);
    let att_stance = if is_p1 {
        b0.player1_stance
    } else {
        b0.player2_stance
    };
    let def_stance = if is_p1 {
        b0.player2_stance
    } else {
        b0.player1_stance
    };
    let (d1, b1) = stance_spec(d0, att_stance, def_stance, is_p1, b0);
    let (d2, b2) = if b1.wildcard_active && b1.wildcard_type is Some {
        wildcard_apply_spec(d1, b1, is_p1, now)
    } else {
        (d1, b1)
    };
    let b3 = apply_damage_spec(d2, b2, is_p1);
    let b4 = cooldown_spec(b3, is_p1, use_special);
    let b5 = termination_spec(b4);
    advance_spec(b5)
}

/// Applies the turn's damage to the defending side and any reflection back
/// onto the attacker.
fn apply_turn_damage(battle: &mut Battle, damage: u64, is_player1: bool)
    ensures
        final(battle)@ =~= apply_damage_spec(damage, old(battle)@, is_player1),
        final(battle)@.turn_number == old(battle)@.turn_number,
{
    proof {
        reveal(apply_damage_spec);
    }
    if is_player1 {
        battle.player2_hp = sub_sat64(battle.player2_hp, damage);
        if battle.player1_reflection > 0 {
            let reflected: u64 = mul_sat64(damage, battle.player1_reflection as u64) / 100;
            battle.player1_hp = sub_sat64(battle.player1_hp, reflected);
            battle.log_battle_event(LogEntry::ReflectedDamage { side: 1, amount: reflected });
        }
    } else {
        battle.player1_hp = sub_sat64(battle.player1_hp, damage);
        if battle.player2_reflection > 0 {
            let reflected: u64 = mul_sat64(damage, battle.player2_reflection as u64) / 100;
            battle.player2_hp = sub_sat64(battle.player2_hp, reflected);
            battle.log_battle_event(LogEntry::ReflectedDamage { side: 2, amount: reflected });
        }
    }
    battle.log_battle_event(LogEntry::DamageDealt { amount: damage });
}

/// Ends a turn: cooldown bookkeeping for the acting side, the termination
/// check, and the advance to the other side's turn.
#[verifier::rlimit(100)]
fn finish_turn(battle: &mut Battle, is_player1: bool, use_special: bool)
    requires
        old(battle)@.turn_number < u32::MAX,
    ensures
        final(battle)@ =~= advance_spec(
            termination_spec(cooldown_spec(old(battle)@, is_player1, use_special)),
        ),
{
    proof {
        reveal(cooldown_spec);
        reveal(termination_spec);
        reveal(advance_spec);
    }
    if use_special {
        if is_player1 {
            battle.player1_special_cooldown = 3;
        } else {
            battle.player2_special_cooldown = 3;
        }
    }
    if is_player1 {
        battle.player1_special_cooldown = battle.player1_special_cooldown.saturating_sub(1);
    } else {
        battle.player2_special_cooldown = battle.player2_special_cooldown.saturating_sub(1);
    }
    let ghost b4 = battle@;

    if battle.player1_hp == 0 || battle.player2_hp == 0 {
        battle.is_finished = true;
        let w: u8 = if battle.player1_hp > 0 {
            1
        } else {
            2
        };
        battle.winner = Some(w);
        battle.log_battle_event(LogEntry::BattleFinished { winner: w });
    }
    assert(battle@ =~= termination_spec(b4));
    let ghost b5 = battle@;

    battle.current_turn = if battle.current_turn == 1 {
        2
    } else {
        1
    };
    battle.turn_number = battle.turn_number + 1;
    battle.wildcard_active = false;
    battle.wildcard_player1_decision = None;
    battle.wildcard_player2_decision = None;
    assert(battle@ =~= advance_spec(b5));
}

/// Stitches the staged turn values together into `execute_turn_spec`.
proof fn lemma_execute_turn_compose(
    b: BattleView,
    attacker: CharacterView,
    defender: CharacterView,
    is_p1: bool,
    use_special: bool,
    now: i64,
    d0: u64,
    b0: BattleView,
    d1: u64,
    b1: BattleView,
    d2: u64,
    b2: BattleView,
    bf: BattleView,
)
    requires
        (d0, b0) == calc_damage_spec(attacker, defender, b, is_p1, use_special, now),
        (d1, b1) == stance_spec(
            d0,
            if is_p1 {
                b0.player1_stance
            } else {
                b0.player2_stance
            },
            if is_p1 {
                b0.player2_stance
            } else {
                b0.player1_stance
            },
            is_p1,
            b0,
        ),
        (d2, b2) == (if b1.wildcard_active && b1.wildcard_type is Some {
            wildcard_apply_spec(d1, b1, is_p1, now)
        } else {
            (d1, b1)
        }),
        bf == advance_spec(
            termination_spec(cooldown_spec(apply_damage_spec(d2, b2, is_p1), is_p1, use_special)),
        ),
    ensures
        bf == execute_turn_spec(b, attacker, defender, is_p1, use_special, now),
{
    reveal(execute_turn_spec);
}

/// Executes one turn for the acting side against the defending side.
#[verifier::rlimit(100)]
pub fn execute_battle_turn(
    battle: &mut Battle,
    attacker: &Character,
    defender: &Character,
    is_player1: bool,
    use_special: bool,
    now: i64,
)
    requires
        attacker@.wf(),
        now >= 0,
        old(battle)@.turn_number < u32::MAX,
    ensures
        final(battle)@ =~= execute_turn_spec(
            old(battle)@,
            attacker@,
            defender@,
            is_player1,
            use_special,
            now,
        ),
{
    let ghost b_in = battle@;
    let mut damage: u64 = calculate_damage(
        attacker,
        defender,
        battle,
        is_player1,
        use_special,
        now,
    );
    let ghost d0 = damage;
    let ghost b0 = battle@;

    let attacker_stance: BattleStance = if is_player1 {
        battle.player1_stance
    } else {
        battle.player2_stance
    };
    let defender_stance: BattleStance = if is_player1 {
        battle.player2_stance
    } else {
        battle.player1_stance
    };
    damage = apply_stance_modifiers(damage, attacker_stance, defender_stance, is_player1, battle);
    let ghost d1 = damage;
    let ghost b1 = battle@;

    if battle.wildcard_active && battle.wildcard_type.is_some() {
        damage = apply_wildcard_effects(damage, battle, is_player1, now);
    }
    let ghost d2 = damage;
    let ghost b2 = battle@;
    assert((d2, b2) =~= (if b1.wildcard_active && b1.wildcard_type is Some {
        wildcard_apply_spec(d1, b1, is_player1, now)
    } else {
        (d1, b1)
    }));

    apply_turn_damage(battle, damage, is_player1);
    let ghost b3 = battle@;
    finish_turn(battle, is_player1, use_special);
    proof {
        lemma_execute_turn_compose(
            b_in,
            attacker@,
            defender@,
            is_player1,
            use_special,
            now,
            d0,
            b0,
            d1,
            b1,
            d2,
            b2,
            battle@,
        );
    }
}

/// The ordered validation a reveal runs before mutating anything: finished,
/// expired, out of turn, a commitment mismatch, then a special on cooldown.
pub open spec fn reveal_checks(
    b: BattleView,
    is_p1: bool,
    stance: BattleStance,
    salt: u64,
    use_special: bool,
    now: i64,
) -> Option<GameError> {
    if b.is_finished {
        Some(GameError::BattleAlreadyFinished)
    } else if battle_expired(b, now) {
        Some(GameError::BattleExpired)
    } else if !holds_turn(b, is_p1) {
        Some(GameError::NotYourTurn)
    } else if stored_hash(b, is_p1) != commitment_hash(stance, salt) {
        Some(GameError::InvalidStanceReveal)
    } else if use_special && b.cooldown_of(is_p1) != 0 {
        Some(GameError::SpecialOnCooldown)
    } else {
        None
    }
}

/// The battle after the acting side's damage-over-time tick: while turns
/// remain, the side loses the DOT amount and one remaining turn.
#[verifier::opaque]
pub open spec fn dot_tick_spec(b: BattleView, is_p1: bool) -> BattleView {
    if is_p1 && b.player1_dot_turns > 0 {
        BattleView {
            player1_hp: sat_sub64(b.player1_hp, b.player1_dot_damage),
            player1_dot_turns: (b.player1_dot_turns - 1) as u8,
            ..b
        }.with_log(LogEntry::DotDamage { side: 1u8, amount: b.player1_dot_damage })
    } else if !is_p1 && b.player2_dot_turns > 0 {
        BattleView {
            player2_hp: sat_sub64(b.player2_hp, b.player2_dot_damage),
            player2_dot_turns: (b.player2_dot_turns - 1) as u8,
            ..b
        }.with_log(LogEntry::DotDamage { side: 2u8, amount: b.player2_dot_damage })
    } else {
        b
    }
}

/// The wildcard trigger threshold out of a hundred: ten, raised to
/// twenty-five for a Trickster acting this turn.
pub open spec fn wildcard_chance_spec(class: CharacterClass) -> u8 {
    if class == CharacterClass::Trickster {
        25u8
    } else {
        10u8
    }
}

/// The event an eight-way roll selects.
pub open spec fn wildcard_event_from_roll(roll: u8) -> WildcardEvent {
    if roll == 0 {
        WildcardEvent::DoubleOrNothing
    } else if roll == 1 {
        WildcardEvent::ReverseRoles
    } else if roll == 2 {
        WildcardEvent::MysteryBox
    } else if roll == 3 {
        WildcardEvent::DeathRoulette
    } else if roll == 4 {
        WildcardEvent::ComboBreaker
    } else if roll == 5 {
        WildcardEvent::TimeWarp
    } else if roll == 6 {
        WildcardEvent::LuckySeven
    } else {
        WildcardEvent::GamblersFallacy
    }
}

/// Whether this reveal rolls a fresh wildcard: the trigger roll is under the
/// class's threshold and no wildcard is already active.
pub open spec fn wildcard_triggers(b: BattleView, class: CharacterClass, now: i64) -> bool {
    roll_spec(now, b.turn_number as u64, 1) % 100 < wildcard_chance_spec(class)
        && !b.wildcard_active
}

/// The wildcard roll a reveal makes: whether the turn is suspended for a
/// decision, and the battle after a fresh event (if any) is recorded; a
/// decision-gated event also sets the decision deadline.
#[verifier::opaque]
pub open spec fn wildcard_roll_spec(b: BattleView, class: CharacterClass, now: i64) -> (
    bool,
    BattleView,
) {
    if wildcard_triggers(b, class, now) {
        let event = wildcard_event_from_roll(roll_spec(now, b.turn_number as u64, 2) % 8);
        if requires_decision_spec(event) {
            (
                true,
                BattleView {
                    wildcard_type: Some(event),
                    wildcard_active: true,
                    wildcard_decision_deadline: (now + crate::WILDCARD_DECISION_TIMEOUT) as i64,
                    ..b
                }.with_log(LogEntry::WildcardTriggered { event, decision_required: true }),
            )
        } else {
            (
                false,
                BattleView { wildcard_type: Some(event), wildcard_active: true, ..b }.with_log(
                    LogEntry::WildcardTriggered { event, decision_required: false },
                ),
            )
        }
    } else {
        (false, b)
    }
}

/// The battle bookkeeping a completed (non-suspended) reveal ends with: the
/// action clock is touched and both commitments are cleared.
pub open spec fn finish_reveal_spec(b: BattleView, now: i64) -> BattleView {
    BattleView {
        last_action_time: now,
        player1_stance_committed: false,
        player2_stance_committed: false,
        player1_stance_hash: Seq::empty(),
        player2_stance_hash: Seq::empty(),
        ..b
    }
}

/// The battle after a validated reveal proceeds: the acting side's stance is
/// set, its DOT ticks, the wildcard roll may suspend the turn, and otherwise
/// the turn executes and the commitments are cleared.
#[verifier::opaque]
pub open spec fn reveal_proceed_spec(
    b: BattleView,
    attacker: CharacterView,
    defender: CharacterView,
    is_p1: bool,
    stance: BattleStance,
    use_special: bool,
    now: i64,
) -> BattleView {
    let b1 = if is_p1 {
        BattleView { player1_stance: stance, ..b }
    } else {
        BattleView { player2_stance: stance, ..b }
    };
    let b2 = dot_tick_spec(b1, is_p1);
    let b3 = if attacker.character_class == CharacterClass::Trickster {
        b2.with_log(LogEntry::TricksterWildcardBoost)
    } else {
        b2
    };
    let (suspended, b4) = wildcard_roll_spec(b3, attacker.character_class, now);
    if suspended {
        b4
    } else {
        finish_reveal_spec(execute_turn_spec(b4, attacker, defender, is_p1, use_special, now), now)
    }
}

/// Stitches the staged reveal values together into `reveal_proceed_spec`.
proof fn lemma_reveal_proceed_compose(
    b: BattleView,
    attacker: CharacterView,
    defender: CharacterView,
    is_p1: bool,
    stance: BattleStance,
    use_special: bool,
    now: i64,
    b1: BattleView,
    b2: BattleView,
    b3: BattleView,
    suspended: bool,
    b4: BattleView,
    bf: BattleView,
)
    requires
        b1 == (if is_p1 {
            BattleView { player1_stance: stance, ..b }
        } else {
            BattleView { player2_stance: stance, ..b }
        }),
        b2 == dot_tick_spec(b1, is_p1),
        b3 == (if attacker.character_class == CharacterClass::Trickster {
            b2.with_log(LogEntry::TricksterWildcardBoost)
        } else {
            b2
        }),
        (suspended, b4) == wildcard_roll_spec(b3, attacker.character_class, now),
        bf == (if suspended {
            b4
        } else {
            finish_reveal_spec(
                execute_turn_spec(b4, attacker, defender, is_p1, use_special, now),
                now,
            )
        }),
    ensures
        bf == reveal_proceed_spec(b, attacker, defender, is_p1, stance, use_special, now),
{
    reveal(reveal_proceed_spec);
}

/// What `reveal_and_execute_turn` yields: the result and the battle after a
/// rejected, suspended or executed turn.
pub open spec fn reveal_spec(
    b: BattleView,
    attacker: CharacterView,
    defender: CharacterView,
    is_p1: bool,
    stance: BattleStance,
    salt: u64,
    use_special: bool,
    now: i64,
) -> (Result<(), GameError>, BattleView) {
    match reveal_checks(b, is_p1, stance, salt, use_special, now) {
        Some(e) => (Err(e), b),
        None => (Ok(()), reveal_proceed_spec(b, attacker, defender, is_p1, stance, use_special, now)),
    }
}

/// Applies the acting side's pending damage-over-time tick.
fn dot_tick(battle: &mut Battle, is_player1: bool)
    ensures
        final(battle)@ =~= dot_tick_spec(old(battle)@, is_player1),
        final(battle)@.turn_number == old(battle)@.turn_number,
{
    proof {
        reveal(dot_tick_spec);
    }
    if is_player1 && battle.player1_dot_turns > 0 {
        battle.player1_hp = sub_sat64(battle.player1_hp, battle.player1_dot_damage);
        battle.player1_dot_turns = battle.player1_dot_turns - 1;
        battle.log_battle_event(
            LogEntry::DotDamage { side: 1, amount: battle.player1_dot_damage },
        );
    } else if !is_player1 && battle.player2_dot_turns > 0 {
        battle.player2_hp = sub_sat64(battle.player2_hp, battle.player2_dot_damage);
        battle.player2_dot_turns = battle.player2_dot_turns - 1;
        battle.log_battle_event(
            LogEntry::DotDamage { side: 2, amount: battle.player2_dot_damage },
        );
    }
}

/// Makes the reveal's wildcard roll; returns whether the turn is suspended
/// for a decision.
fn roll_turn_wildcard(battle: &mut Battle, class: CharacterClass, now: i64) -> (suspended: bool)
    requires
        0 <= now <= i64::MAX - crate::WILDCARD_DECISION_TIMEOUT,
    ensures
        (suspended, final(battle)@) =~= wildcard_roll_spec(old(battle)@, class, now),
        final(battle)@.turn_number == old(battle)@.turn_number,
{
    proof {
        reveal(wildcard_roll_spec);
    }
    let wildcard_chance: u8 = if matches!(class, CharacterClass::Trickster) {
        25
    } else {
        10
    };
    let wildcard_roll: u8 = simple_random(now, battle.turn_number as u64, 1) % 100;
    if wildcard_roll < wildcard_chance && !battle.wildcard_active {
        let wildcard_type_roll: u8 = simple_random(now, battle.turn_number as u64, 2) % 8;
        let event: WildcardEvent = if wildcard_type_roll == 0 {
            WildcardEvent::DoubleOrNothing
        } else if wildcard_type_roll == 1 {
            WildcardEvent::ReverseRoles
        } else if wildcard_type_roll == 2 {
            WildcardEvent::MysteryBox
        } else if wildcard_type_roll == 3 {
            WildcardEvent::DeathRoulette
        } else if wildcard_type_roll == 4 {
            WildcardEvent::ComboBreaker
        } else if wildcard_type_roll == 5 {
            WildcardEvent::TimeWarp
        } else if wildcard_type_roll == 6 {
            WildcardEvent::LuckySeven
        } else {
            WildcardEvent::GamblersFallacy
        };
        battle.wildcard_type = Some(event);
        battle.wildcard_active = true;
        if requires_decision(event) {
            battle.wildcard_decision_deadline = now + crate::WILDCARD_DECISION_TIMEOUT;
            battle.log_battle_event(
                LogEntry::WildcardTriggered { event, decision_required: true },
            );
            true
        } else {
            battle.log_battle_event(
                LogEntry::WildcardTriggered { event, decision_required: false },
            );
            false
        }
    } else {
        false
    }
}

/// Verifies the revealed stance and salt against the stored commitment and
/// executes the turn: the acting side's DOT ticks, a wildcard may roll (a
/// decision-gated one suspends the turn with a decision deadline and no
/// damage), otherwise the turn execution core runs and both commitments are
/// cleared for the next turn.
#[verifier::rlimit(100)]
pub fn reveal_and_execute_turn(
    battle: &mut Battle,
    attacker_character: &Character,
    defender_character: &Character,
    is_player1: bool,
    stance: BattleStance,
    salt: u64,
    use_special: bool,
    now: i64,
) -> (r: Result<(), GameError>)
    requires
        old(battle)@.wf(),
        attacker_character@.wf(),
        0 <= now <= i64::MAX - crate::WILDCARD_DECISION_TIMEOUT,
        old(battle)@.turn_number < u32::MAX,
    ensures
        (r, final(battle)@) =~= reveal_spec(
            old(battle)@,
            attacker_character@,
            defender_character@,
            is_player1,
            stance,
            salt,
            use_special,
            now,
        ),
{
    if battle.is_finished {
        return Err(GameError::BattleAlreadyFinished);
    }
    match battle.check_battle_timeout(now) {
        Err(e) => {
            return Err(e);
        },
        Ok(()) => {},
    }
    if !((is_player1 && battle.current_turn == 1) || (!is_player1 && battle.current_turn == 2)) {
        return Err(GameError::NotYourTurn);
    }

    let computed_hash = compute_commitment(stance, salt);
    let hash_matches: bool = if is_player1 {
        bytes_eq(&battle.player1_stance_hash, &computed_hash)
    } else {
        bytes_eq(&battle.player2_stance_hash, &computed_hash)
    };
    if !hash_matches {
        return Err(GameError::InvalidStanceReveal);
    }

    if use_special {
        let cooldown: u8 = if is_player1 {
            battle.player1_special_cooldown
        } else {
            battle.player2_special_cooldown
        };
        if cooldown != 0 {
            return Err(GameError::SpecialOnCooldown);
        }
    }

    reveal_proceed(
        battle,
        attacker_character,
        defender_character,
        is_player1,
        stance,
        use_special,
        now,
    );
    Ok(())
}

/// Runs the body of a validated reveal: stance, DOT tick, wildcard roll, and
/// unless suspended the turn execution and commitment reset.
#[verifier::rlimit(100)]
fn reveal_proceed(
    battle: &mut Battle,
    attacker_character: &Character,
    defender_character: &Character,
    is_player1: bool,
    stance: BattleStance,
    use_special: bool,
    now: i64,
)
    requires
        attacker_character@.wf(),
        0 <= now <= i64::MAX - crate::WILDCARD_DECISION_TIMEOUT,
        old(battle)@.turn_number < u32::MAX,
    ensures
        final(battle)@ =~= reveal_proceed_spec(
            old(battle)@,
            attacker_character@,
            defender_character@,
            is_player1,
            stance,
            use_special,
            now,
        ),
{
    let ghost b_in = battle@;
    if is_player1 {
        battle.player1_stance = stance;
    } else {
        battle.player2_stance = stance;
    }
    assert(battle@ =~= (if is_player1 {
        BattleView { player1_stance: stance, ..b_in }
    } else {
        BattleView { player2_stance: stance, ..b_in }
    }));
    let ghost b1 = battle@;

    dot_tick(battle, is_player1);
    let ghost b2 = battle@;

    if matches!(attacker_character.character_class, CharacterClass::Trickster) {
        battle.log_battle_event(LogEntry::TricksterWildcardBoost);
    }
    assert(battle@ =~= (if attacker_character@.character_class == CharacterClass::Trickster {
        b2.with_log(LogEntry::TricksterWildcardBoost)
    } else {
        b2
    }));
    let ghost b3 = battle@;

    let suspended: bool = roll_turn_wildcard(battle, attacker_character.character_class, now);
    let ghost b4 = battle@;

    if !suspended {
        execute_battle_turn(
            battle,
            attacker_character,
            defender_character,
            is_player1,
            use_special,
            now,
        );
        let ghost b_exec = battle@;

        battle.last_action_time = now;
        battle.player1_stance_committed = false;
        battle.player2_stance_committed = false;
        battle.player1_stance_hash = Vec::new();
        battle.player2_stance_hash = Vec::new();
        assert(battle@ =~= finish_reveal_spec(b_exec, now));
    }
    proof {
        lemma_reveal_proceed_compose(
            b_in,
            attacker_character@,
            defender_character@,
            is_player1,
            stance,
            use_special,
            now,
            b1,
            b2,
            b3,
            suspended,
            b4,
            battle@,
        );
    }
}

/// What `check_timeout` yields: the result and the battle after the side
/// holding the turn forfeits, when it has been inactive past the turn
/// timeout.
pub open spec fn check_timeout_spec(b: BattleView, now: i64) -> (
    Result<(), GameError>,
    BattleView,
) {
    if b.is_finished {
        (Err(GameError::BattleAlreadyFinished), b)
    } else if now - b.last_action_time > crate::TURN_TIMEOUT_SECONDS {
        let winner = if b.current_turn == 1 {
            2u8
        } else {
            1u8
        };
        (
            Ok(()),
            BattleView { is_finished: true, abandoned: true, winner: Some(winner), ..b }.with_log(
                LogEntry::Forfeited { side: b.current_turn },
            ),
        )
    } else {
        (Ok(()), b)
    }
}

/// Forfeits the side holding the turn when it has been inactive for longer
/// than the turn timeout: the battle finishes as abandoned and the other side
/// wins. Without such inactivity the call succeeds and changes nothing.
pub fn check_timeout(battle: &mut Battle, now: i64) -> (r: Result<(), GameError>)
    requires
        old(battle)@.wf(),
        now >= 0,
    ensures
        (r, final(battle)@) =~= check_timeout_spec(old(battle)@, now),
        r is Err ==> final(battle)@ =~= old(battle)@,
{
    if battle.is_finished {
        return Err(GameError::BattleAlreadyFinished);
    }
    let time_since_last_action: i64 = now - battle.last_action_time;
    if time_since_last_action > crate::TURN_TIMEOUT_SECONDS {
        battle.is_finished = true;
        battle.abandoned = true;
        let forfeiter: u8 = battle.current_turn;
        battle.winner = Some(
            if battle.current_turn == 1 {
                2
            } else {
                1
            },
        );
        battle.log_battle_event(LogEntry::Forfeited { side: forfeiter });
    }
    Ok(())
}

/// The scripted opponent's stance heuristic: below thirty percent of its own
/// health a coin flip picks Defensive or Berserker; against an opponent below
/// thirty percent, Aggressive; against an Aggressive opponent, Counter; else
/// a five-way roll.
pub open spec fn ai_stance_spec(
    b: BattleView,
    ai: CharacterView,
    player: CharacterView,
    now: i64,
) -> BattleStance {
    let ai_hp_percent = sat_mul64(b.player2_hp, 100) / ai.max_hp;
    let player_hp_percent = sat_mul64(b.player1_hp, 100) / player.max_hp;
    if ai_hp_percent < 30 {
        if roll_spec(now, b.turn_number as u64, 20) % 2 == 0 {
            BattleStance::Defensive
        } else {
            BattleStance::Berserker
        }
    } else if player_hp_percent < 30 {
        BattleStance::Aggressive
    } else if b.player1_stance == BattleStance::Aggressive {
        BattleStance::Counter
    } else {
        let roll = roll_spec(now, b.turn_number as u64, 21) % 5;
        if roll == 0 {
            BattleStance::Aggressive
        } else if roll == 1 {
            BattleStance::Defensive
        } else if roll == 2 {
            BattleStance::Counter
        } else if roll == 3 {
            BattleStance::Berserker
        } else {
            BattleStance::Balanced
        }
    }
}

/// Chooses the scripted opponent's stance for this turn.
pub fn choose_ai_stance(
    battle: &Battle,
    ai_char: &Character,
    player_char: &Character,
    now: i64,
) -> (r: BattleStance)
    requires
        ai_char@.wf(),
        player_char@.wf(),
        now >= 0,
    ensures
        r == ai_stance_spec(battle@, ai_char@, player_char@, now),
{
    let ai_hp_percent: u64 = mul_sat64(battle.player2_hp, 100) / ai_char.max_hp;
    let player_hp_percent: u64 = mul_sat64(battle.player1_hp, 100) / player_char.max_hp;
    if ai_hp_percent < 30 {
        if simple_random(now, battle.turn_number as u64, 20) % 2 == 0 {
            BattleStance::Defensive
        } else {
            BattleStance::Berserker
        }
    } else if player_hp_percent < 30 {
        BattleStance::Aggressive
    } else if matches!(battle.player1_stance, BattleStance::Aggressive) {
        BattleStance::Counter
    } else {
        let roll: u8 = simple_random(now, battle.turn_number as u64, 21) % 5;
        if roll == 0 {
            BattleStance::Aggressive
        } else if roll == 1 {
            BattleStance::Defensive
        } else if roll == 2 {
            BattleStance::Counter
        } else if roll == 3 {
            BattleStance::Berserker
        } else {
            BattleStance::Balanced
        }
    }
}

/// What `execute_ai_turn` yields: the result and the battle after the
/// scripted side's heuristic turn.
pub open spec fn ai_turn_spec(
    b: BattleView,
    player: CharacterView,
    ai: CharacterView,
    now: i64,
) -> (Result<(), GameError>, BattleView) {
    if !b.is_vs_ai {
        (Err(GameError::NotAiBattle), b)
    } else if b.is_finished {
        (Err(GameError::BattleAlreadyFinished), b)
    } else if b.current_turn != 2 {
        (Err(GameError::NotAiTurn), b)
    } else {
        let ai_stance = ai_stance_spec(b, ai, player, now);
        let ai_use_special = b.player2_special_cooldown == 0 && b.player2_hp < ai.max_hp / 2;
        let b1 = BattleView { player2_stance: ai_stance, ..b };
        let b2 = execute_turn_spec(b1, ai, player, false, ai_use_special, now);
        (Ok(()), BattleView { last_action_time: now, ..b2 })
    }
}

/// Runs the scripted opponent's turn: the heuristic picks a stance, the
/// special fires automatically when available and the side is below half its
/// maximum health, and the turn execution core runs without commit-reveal.
#[verifier::rlimit(100)]
pub fn execute_ai_turn(
    battle: &mut Battle,
    player_character: &Character,
    ai_character: &Character,
    now: i64,
) -> (r: Result<(), GameError>)
    requires
        old(battle)@.wf(),
        player_character@.wf(),
        ai_character@.wf(),
        now >= 0,
        old(battle)@.turn_number < u32::MAX,
    ensures
        (r, final(battle)@) =~= ai_turn_spec(old(battle)@, player_character@, ai_character@, now),
        r is Err ==> final(battle)@ =~= old(battle)@,
{
    if !battle.is_vs_ai {
        return Err(GameError::NotAiBattle);
    }
    if battle.is_finished {
        return Err(GameError::BattleAlreadyFinished);
    }
    if battle.current_turn != 2 {
        return Err(GameError::NotAiTurn);
    }

    let ghost b0 = battle@;
    let ai_stance = choose_ai_stance(battle, ai_character, player_character, now);
    let ai_use_special: bool = battle.player2_special_cooldown == 0 && battle.player2_hp
        < ai_character.max_hp / 2;

    battle.player2_stance = ai_stance;
    assert(battle@ =~= (BattleView { player2_stance: ai_stance_spec(b0, ai_character@, player_character@, now), ..b0 }));

    execute_battle_turn(battle, ai_character, player_character, false, ai_use_special, now);

    battle.last_action_time = now;
    Ok(())
}

} // verus!
