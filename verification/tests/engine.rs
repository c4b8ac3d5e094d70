use battle_engine::battle::create_battle;
use battle_engine::character::create_character;
use battle_engine::commitment::compute_commitment;
use battle_engine::progression::finalize_battle;
use battle_engine::rng::simple_random;
use battle_engine::turn::{check_timeout, commit_stance, execute_ai_turn, reveal_and_execute_turn};
use battle_engine::types::{Achievement, BattleStance, CharacterClass, GameError, MatchType, RankTier, WildcardEvent};
use battle_engine::wildcard::{decide_wildcard, resolve_wildcard_timeout};

fn commit_and_reveal(
    battle: &mut battle_engine::battle::Battle,
    attacker: &battle_engine::character::Character,
    defender: &battle_engine::character::Character,
    is_p1: bool,
    stance: BattleStance,
    salt: u64,
    use_special: bool,
    now: i64,
) -> Result<(), GameError> {
    let hash = compute_commitment(stance, salt);
    commit_stance(battle, is_p1, hash, now).unwrap();
    reveal_and_execute_turn(battle, attacker, defender, is_p1, stance, salt, use_special, now)
}

#[test]
fn plain_turn_reduces_defender_by_base_roll() {
    // Warrior (120 HP, 8-15 damage) against Tank (150 HP), both Balanced, no
    // special; the timestamp 3840 rolls no wildcard, no crit and no dodge.
    let warrior = create_character(CharacterClass::Warrior, "Bran".to_string()).unwrap();
    let tank = create_character(CharacterClass::Tank, "Wall".to_string()).unwrap();
    let mut battle = create_battle(&warrior, &tank, MatchType::Casual, 0, false, 1000).unwrap();

    let roll = simple_random(3840, 0, 3) as u64;
    assert_eq!(roll, 15);
    let expected_damage = 8 + roll % 8; // 15

    commit_and_reveal(&mut battle, &warrior, &tank, true, BattleStance::Balanced, 7, false, 3840)
        .unwrap();

    assert_eq!(battle.player2_hp, 150 - expected_damage);
    assert_eq!(battle.player1_hp, 120);
    assert_eq!(battle.current_turn, 2);
    assert_eq!(battle.turn_number, 1);
    assert!(!battle.player1_stance_committed);
    assert!(!battle.player2_stance_committed);
}

#[test]
fn mismatched_reveal_is_rejected_and_state_kept() {
    // The commitment binds Aggressive with salt 42; revealing Defensive with
    // the same salt must fail and leave the battle untouched.
    let warrior = create_character(CharacterClass::Warrior, "Bran".to_string()).unwrap();
    let tank = create_character(CharacterClass::Tank, "Wall".to_string()).unwrap();
    let mut battle = create_battle(&warrior, &tank, MatchType::Casual, 0, false, 1000).unwrap();

    let hash = compute_commitment(BattleStance::Aggressive, 42);
    commit_stance(&mut battle, true, hash.clone(), 1001).unwrap();

    let r = reveal_and_execute_turn(
        &mut battle,
        &warrior,
        &tank,
        true,
        BattleStance::Defensive,
        42,
        false,
        1002,
    );
    assert_eq!(r, Err(GameError::InvalidStanceReveal));
    assert_eq!(battle.turn_number, 0);
    assert_eq!(battle.current_turn, 1);
    assert!(battle.player1_stance_committed);
    assert_eq!(battle.player1_stance_hash, hash);
    assert_eq!(battle.player1_hp, 120);
    assert_eq!(battle.player2_hp, 150);
}

#[test]
fn reveal_with_wrong_salt_is_rejected() {
    let warrior = create_character(CharacterClass::Warrior, "Bran".to_string()).unwrap();
    let tank = create_character(CharacterClass::Tank, "Wall".to_string()).unwrap();
    let mut battle = create_battle(&warrior, &tank, MatchType::Casual, 0, false, 1000).unwrap();

    let hash = compute_commitment(BattleStance::Aggressive, 42);
    commit_stance(&mut battle, true, hash, 1001).unwrap();
    let r = reveal_and_execute_turn(
        &mut battle,
        &warrior,
        &tank,
        true,
        BattleStance::Aggressive,
        43,
        false,
        1002,
    );
    assert_eq!(r, Err(GameError::InvalidStanceReveal));
}

#[test]
fn expired_battle_rejects_actions_but_still_forfeits() {
    // Created 3601 seconds ago: commits and reveals fail with BattleExpired,
    // while the inactivity forfeit still runs and names a winner.
    let warrior = create_character(CharacterClass::Warrior, "Bran".to_string()).unwrap();
    let tank = create_character(CharacterClass::Tank, "Wall".to_string()).unwrap();
    let mut battle = create_battle(&warrior, &tank, MatchType::Casual, 0, false, 1000).unwrap();

    let now = 1000 + 3601;
    let hash = compute_commitment(BattleStance::Balanced, 1);
    assert_eq!(
        commit_stance(&mut battle, true, hash, now),
        Err(GameError::BattleExpired)
    );
    let r = reveal_and_execute_turn(
        &mut battle,
        &warrior,
        &tank,
        true,
        BattleStance::Balanced,
        1,
        false,
        now,
    );
    assert_eq!(r, Err(GameError::BattleExpired));

    check_timeout(&mut battle, now).unwrap();
    assert!(battle.is_finished);
    assert!(battle.abandoned);
    assert_eq!(battle.winner, Some(2));
}

#[test]
fn mage_dot_ticks_on_three_defender_turns_then_stops() {
    // The Mage's special arms a 15-damage, 3-turn DOT on the defender; each of
    // the defender's next three own turns starts with exactly 15 lost, and the
    // fourth starts with none. Timestamps 6400+turn roll no wildcard and no
    // crit for either side.
    let mage = create_character(CharacterClass::Mage, "Aza".to_string()).unwrap();
    let tank = create_character(CharacterClass::Tank, "Wall".to_string()).unwrap();
    let mut battle = create_battle(&mage, &tank, MatchType::Casual, 0, false, 6000).unwrap();

    // Turn 0: mage uses the special. Base 10 + 25 % 9 = 17, doubled to 34.
    commit_and_reveal(&mut battle, &mage, &tank, true, BattleStance::Balanced, 1, true, 6400)
        .unwrap();
    assert_eq!(battle.player2_hp, 116);
    assert_eq!(battle.player2_dot_damage, 15);
    assert_eq!(battle.player2_dot_turns, 3);
    assert_eq!(battle.player1_special_cooldown, 2);

    // Turn 1: tank's own turn starts with the first DOT tick.
    commit_and_reveal(&mut battle, &tank, &mage, false, BattleStance::Balanced, 2, false, 6401)
        .unwrap();
    assert_eq!(battle.player2_hp, 101);
    assert_eq!(battle.player1_hp, 70);
    assert_eq!(battle.player2_dot_turns, 2);

    // Turn 2: mage again (no special), damage 17.
    commit_and_reveal(&mut battle, &mage, &tank, true, BattleStance::Balanced, 3, false, 6402)
        .unwrap();
    assert_eq!(battle.player2_hp, 84);

    // Turn 3: second DOT tick.
    commit_and_reveal(&mut battle, &tank, &mage, false, BattleStance::Balanced, 4, false, 6403)
        .unwrap();
    assert_eq!(battle.player2_hp, 69);
    assert_eq!(battle.player1_hp, 60);
    assert_eq!(battle.player2_dot_turns, 1);

    // Turn 4: mage.
    commit_and_reveal(&mut battle, &mage, &tank, true, BattleStance::Balanced, 5, false, 6404)
        .unwrap();
    assert_eq!(battle.player2_hp, 52);

    // Turn 5: third and last DOT tick.
    commit_and_reveal(&mut battle, &tank, &mage, false, BattleStance::Balanced, 6, false, 6405)
        .unwrap();
    assert_eq!(battle.player2_hp, 37);
    assert_eq!(battle.player1_hp, 50);
    assert_eq!(battle.player2_dot_turns, 0);

    // Turn 6: mage.
    commit_and_reveal(&mut battle, &mage, &tank, true, BattleStance::Balanced, 7, false, 6406)
        .unwrap();
    assert_eq!(battle.player2_hp, 20);

    // Turn 7: no DOT remains; the tank's health is untouched at its turn start.
    commit_and_reveal(&mut battle, &tank, &mage, false, BattleStance::Balanced, 8, false, 6407)
        .unwrap();
    assert_eq!(battle.player2_hp, 20);
    assert_eq!(battle.player1_hp, 40);
}

#[test]
fn finalize_ranked_awards_xp_and_mmr() {
    // Winner 1, Ranked, equal levels: the winner gains exactly 100 XP (which
    // crosses the level-1 threshold and is consumed by the level-up) and 25
    // MMR; the loser loses 15 MMR; both are healed to full.
    let mut p1 = create_character(CharacterClass::Warrior, "Bran".to_string()).unwrap();
    let mut p2 = create_character(CharacterClass::Warrior, "Cole".to_string()).unwrap();
    let mut battle = create_battle(&p1, &p2, MatchType::Ranked, 0, false, 1000).unwrap();
    battle.is_finished = true;
    battle.winner = Some(1);

    finalize_battle(&battle, &mut p1, &mut p2).unwrap();

    assert_eq!(p1.level, 2);
    assert_eq!(p1.xp, 0);
    assert_eq!(p1.max_hp, 125);
    assert_eq!(p1.current_hp, 125);
    assert_eq!(p1.base_damage_min, 10);
    assert_eq!(p1.base_damage_max, 17);
    assert_eq!(p1.crit_chance, 16);
    assert_eq!(p1.defense, 1);
    assert_eq!(p1.total_wins, 1);
    assert_eq!(p1.mmr, 1025);
    assert_eq!(p1.rank_tier, RankTier::Silver);
    assert!(p1.achievements.contains(&Achievement::FirstWin));
    assert!(p1.achievements.contains(&Achievement::Flawless));

    assert_eq!(p2.total_losses, 1);
    assert_eq!(p2.mmr, 985);
    assert_eq!(p2.rank_tier, RankTier::Bronze);
    assert_eq!(p2.current_hp, p2.max_hp);
}

#[test]
fn decision_wildcard_suspends_turn_and_both_decline_is_harmless() {
    // At timestamp 2048 the reveal rolls DoubleOrNothing: the turn suspends
    // with a deadline ten seconds out, no damage applies, and the commitment
    // survives; with both sides declining nothing changes on resolution.
    let warrior = create_character(CharacterClass::Warrior, "Bran".to_string()).unwrap();
    let tank = create_character(CharacterClass::Tank, "Wall".to_string()).unwrap();
    let mut battle = create_battle(&warrior, &tank, MatchType::Casual, 0, false, 1500).unwrap();

    commit_and_reveal(&mut battle, &warrior, &tank, true, BattleStance::Balanced, 9, false, 2048)
        .unwrap();
    assert!(battle.wildcard_active);
    assert_eq!(battle.wildcard_decision_deadline, 2058);
    assert_eq!(battle.player1_hp, 120);
    assert_eq!(battle.player2_hp, 150);
    assert_eq!(battle.turn_number, 0);
    assert!(battle.player1_stance_committed);

    decide_wildcard(&mut battle, true, false, 2050).unwrap();
    assert!(battle.wildcard_active);
    decide_wildcard(&mut battle, false, false, 2051).unwrap();
    assert!(!battle.wildcard_active);
    assert_eq!(battle.wildcard_player1_decision, None);
    assert_eq!(battle.wildcard_player2_decision, None);
    assert_eq!(battle.player1_combo, 0);
    assert_eq!(battle.player2_combo, 0);

    // The revealer re-reveals with the same stance and salt to execute.
    reveal_and_execute_turn(
        &mut battle,
        &warrior,
        &tank,
        true,
        BattleStance::Balanced,
        9,
        false,
        3840,
    )
    .unwrap();
    assert_eq!(battle.turn_number, 1);
    assert_eq!(battle.player2_hp, 150 - 15);
}

#[test]
fn wildcard_timeout_defaults_missing_decision_to_decline() {
    // Side 1 accepts; side 2 never answers. After the deadline the timeout
    // path auto-declines side 2 and resolves the single-accept branch: the
    // coin flip at 2059 records a miss for side 1.
    let warrior = create_character(CharacterClass::Warrior, "Bran".to_string()).unwrap();
    let tank = create_character(CharacterClass::Tank, "Wall".to_string()).unwrap();
    let mut battle = create_battle(&warrior, &tank, MatchType::Casual, 0, false, 1500).unwrap();

    commit_and_reveal(&mut battle, &warrior, &tank, true, BattleStance::Balanced, 9, false, 2048)
        .unwrap();
    decide_wildcard(&mut battle, true, true, 2050).unwrap();

    assert_eq!(
        resolve_wildcard_timeout(&mut battle, 2050),
        Err(GameError::DecisionNotExpired)
    );
    resolve_wildcard_timeout(&mut battle, 2059).unwrap();
    assert!(!battle.wildcard_active);
    assert_eq!(battle.player1_miss_count, 1);
    assert_eq!(battle.player1_combo, 0);
}

#[test]
fn death_roulette_both_accept_flips_the_coin() {
    // At timestamp 1000 the reveal rolls DeathRoulette; both sides accept and
    // the flip at 1002 drops side 2 to one health and grants side 1 a hundred.
    let warrior = create_character(CharacterClass::Warrior, "Bran".to_string()).unwrap();
    let tank = create_character(CharacterClass::Tank, "Wall".to_string()).unwrap();
    let mut battle = create_battle(&warrior, &tank, MatchType::Casual, 0, false, 900).unwrap();

    commit_and_reveal(&mut battle, &warrior, &tank, true, BattleStance::Balanced, 5, false, 1000)
        .unwrap();
    assert!(battle.wildcard_active);

    decide_wildcard(&mut battle, true, true, 1001).unwrap();
    decide_wildcard(&mut battle, false, true, 1002).unwrap();
    assert!(!battle.wildcard_active);
    assert_eq!(battle.player2_hp, 1);
    assert_eq!(battle.player1_hp, 220);
}

#[test]
fn reverse_roles_swaps_battle_health() {
    // Turn 0 at 65001: the Warrior deals 13 plainly. Turn 1 at 67584 rolls a
    // ReverseRoles wildcard (and, the same byte being under every threshold,
    // a Tank crit of 16): the two healths swap first, then the crit lands on
    // side 1's swapped value.
    let warrior = create_character(CharacterClass::Warrior, "Bran".to_string()).unwrap();
    let tank = create_character(CharacterClass::Tank, "Wall".to_string()).unwrap();
    let mut battle = create_battle(&warrior, &tank, MatchType::Casual, 0, false, 65000).unwrap();

    commit_and_reveal(&mut battle, &warrior, &tank, true, BattleStance::Balanced, 1, false, 65001)
        .unwrap();
    assert_eq!(battle.player1_hp, 120);
    assert_eq!(battle.player2_hp, 137);

    commit_and_reveal(&mut battle, &tank, &warrior, false, BattleStance::Balanced, 2, false, 67584)
        .unwrap();
    assert_eq!(battle.wildcard_type, Some(WildcardEvent::ReverseRoles));
    assert!(!battle.wildcard_active);
    // Swapped to (137, 120), then the Tank's crit of 16 hits side 1.
    assert_eq!(battle.player1_hp, 121);
    assert_eq!(battle.player2_hp, 120);
    assert_eq!(battle.turn_number, 2);
}

#[test]
fn ai_turn_runs_heuristic_without_commitment() {
    let warrior = create_character(CharacterClass::Warrior, "Bran".to_string()).unwrap();
    let tank = create_character(CharacterClass::Tank, "Gear".to_string()).unwrap();
    let mut battle = create_battle(&warrior, &tank, MatchType::Casual, 0, true, 4000).unwrap();
    battle.current_turn = 2;
    battle.turn_number = 1;

    execute_ai_turn(&mut battle, &warrior, &tank, 5000).unwrap();
    // Full health on both sides and a Balanced opponent: the five-way roll at
    // 5000 picks Balanced; base 6 + 19 % 7 = 11, no crit, no dodge.
    assert_eq!(battle.player2_stance, BattleStance::Balanced);
    assert_eq!(battle.player1_hp, 109);
    assert_eq!(battle.current_turn, 1);
    assert_eq!(battle.turn_number, 2);
    assert_eq!(battle.last_action_time, 5000);
}

#[test]
fn inactivity_forfeits_the_turn_holder() {
    let warrior = create_character(CharacterClass::Warrior, "Bran".to_string()).unwrap();
    let tank = create_character(CharacterClass::Tank, "Wall".to_string()).unwrap();
    let mut battle = create_battle(&warrior, &tank, MatchType::Casual, 0, false, 1000).unwrap();

    // Within the window nothing happens.
    check_timeout(&mut battle, 1030).unwrap();
    assert!(!battle.is_finished);

    check_timeout(&mut battle, 1031).unwrap();
    assert!(battle.is_finished);
    assert!(battle.abandoned);
    assert_eq!(battle.winner, Some(2));
}
