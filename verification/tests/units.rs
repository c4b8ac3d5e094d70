use battle_engine::battle::create_battle;
use battle_engine::character::{create_character, heal_character};
use battle_engine::commitment::compute_commitment;
use battle_engine::progression::{finalize_battle, get_required_xp, update_rank_tier};
use battle_engine::rng::simple_random;
use battle_engine::stance::apply_stance_modifiers;
use battle_engine::turn::{commit_stance, execute_ai_turn, reveal_and_execute_turn};
use battle_engine::types::{BattleStance, CharacterClass, GameError, MatchType, RankTier};
use battle_engine::wildcard::{decide_wildcard, requires_decision, resolve_wildcard_timeout};
use battle_engine::types::WildcardEvent;

#[test]
fn random_source_is_deterministic() {
    assert_eq!(simple_random(3840, 0, 3), 15);
    assert_eq!(simple_random(0, 0, 0), 0);
    assert_eq!(simple_random(1000, 0, 1), 3);
    assert_eq!(simple_random(6400, 0, 1), 25);
}

#[test]
fn commitment_is_a_digest_not_the_message() {
    let c = compute_commitment(BattleStance::Aggressive, 42);
    assert_eq!(c.len(), 32);
    // The digest depends on both the stance byte and the salt.
    assert_ne!(c, compute_commitment(BattleStance::Defensive, 42));
    assert_ne!(c, compute_commitment(BattleStance::Aggressive, 43));
    // Same inputs, same digest.
    assert_eq!(c, compute_commitment(BattleStance::Aggressive, 42));
}

#[test]
fn stance_encoding_is_one_byte_each() {
    assert_eq!(BattleStance::Aggressive.to_bytes(), vec![0]);
    assert_eq!(BattleStance::Defensive.to_bytes(), vec![1]);
    assert_eq!(BattleStance::Balanced.to_bytes(), vec![2]);
    assert_eq!(BattleStance::Berserker.to_bytes(), vec![3]);
    assert_eq!(BattleStance::Counter.to_bytes(), vec![4]);
}

#[test]
fn class_names_match() {
    assert_eq!(CharacterClass::Warrior.to_string(), "Warrior");
    assert_eq!(CharacterClass::Assassin.to_string(), "Assassin");
    assert_eq!(CharacterClass::Mage.to_string(), "Mage");
    assert_eq!(CharacterClass::Tank.to_string(), "Tank");
    assert_eq!(CharacterClass::Trickster.to_string(), "Trickster");
}

#[test]
fn class_base_stats_match_the_table() {
    let w = create_character(CharacterClass::Warrior, "W".to_string()).unwrap();
    assert_eq!((w.max_hp, w.base_damage_min, w.base_damage_max, w.crit_chance, w.dodge_chance),
        (120, 8, 15, 15, 0));
    let a = create_character(CharacterClass::Assassin, "A".to_string()).unwrap();
    assert_eq!((a.max_hp, a.base_damage_min, a.base_damage_max, a.crit_chance, a.dodge_chance),
        (90, 12, 20, 35, 20));
    let m = create_character(CharacterClass::Mage, "M".to_string()).unwrap();
    assert_eq!((m.max_hp, m.base_damage_min, m.base_damage_max, m.crit_chance, m.dodge_chance),
        (80, 10, 18, 20, 0));
    let t = create_character(CharacterClass::Tank, "T".to_string()).unwrap();
    assert_eq!((t.max_hp, t.base_damage_min, t.base_damage_max, t.crit_chance, t.dodge_chance),
        (150, 6, 12, 10, 0));
    let k = create_character(CharacterClass::Trickster, "K".to_string()).unwrap();
    assert_eq!((k.max_hp, k.base_damage_min, k.base_damage_max, k.crit_chance, k.dodge_chance),
        (100, 9, 16, 25, 15));
    assert_eq!(w.level, 1);
    assert_eq!(w.mmr, 1000);
    assert_eq!(w.rank_tier, RankTier::Bronze);
}

#[test]
fn name_over_32_bytes_is_rejected() {
    let long = "x".repeat(33);
    assert_eq!(
        create_character(CharacterClass::Warrior, long).err(),
        Some(GameError::NameTooLong)
    );
    assert!(create_character(CharacterClass::Warrior, "y".repeat(32)).is_ok());
}

#[test]
fn dead_combatant_cannot_enter_a_battle() {
    let mut dead = create_character(CharacterClass::Warrior, "D".to_string()).unwrap();
    dead.current_hp = 0;
    let alive = create_character(CharacterClass::Tank, "A".to_string()).unwrap();
    assert_eq!(
        create_battle(&dead, &alive, MatchType::Casual, 0, false, 10).err(),
        Some(GameError::CharacterDead)
    );
    assert_eq!(
        create_battle(&alive, &dead, MatchType::Casual, 0, false, 10).err(),
        Some(GameError::CharacterDead)
    );
    // Against a scripted opponent the defender check is waived.
    assert!(create_battle(&alive, &dead, MatchType::Casual, 0, true, 10).is_ok());
}

#[test]
fn heal_restores_full_health_once() {
    let mut c = create_character(CharacterClass::Mage, "H".to_string()).unwrap();
    c.current_hp = 30;
    heal_character(&mut c).unwrap();
    assert_eq!(c.current_hp, 80);
    assert_eq!(heal_character(&mut c), Err(GameError::AlreadyFullHealth));
}

#[test]
fn commit_out_of_turn_and_twice_are_rejected() {
    let p1 = create_character(CharacterClass::Warrior, "P1".to_string()).unwrap();
    let p2 = create_character(CharacterClass::Tank, "P2".to_string()).unwrap();
    let mut battle = create_battle(&p1, &p2, MatchType::Casual, 0, false, 1000).unwrap();

    let h = compute_commitment(BattleStance::Balanced, 1);
    assert_eq!(
        commit_stance(&mut battle, false, h.clone(), 1001),
        Err(GameError::NotYourTurn)
    );
    commit_stance(&mut battle, true, h.clone(), 1001).unwrap();
    // The second commit fails whatever hash it carries.
    assert_eq!(
        commit_stance(&mut battle, true, h.clone(), 1002),
        Err(GameError::AlreadyCommitted)
    );
    assert_eq!(
        commit_stance(&mut battle, true, compute_commitment(BattleStance::Counter, 9), 1002),
        Err(GameError::AlreadyCommitted)
    );
}

#[test]
fn finished_battle_rejects_further_actions() {
    let p1 = create_character(CharacterClass::Warrior, "P1".to_string()).unwrap();
    let p2 = create_character(CharacterClass::Tank, "P2".to_string()).unwrap();
    let mut battle = create_battle(&p1, &p2, MatchType::Casual, 0, false, 1000).unwrap();
    battle.is_finished = true;
    battle.winner = Some(1);

    let h = compute_commitment(BattleStance::Balanced, 1);
    assert_eq!(
        commit_stance(&mut battle, true, h, 1001),
        Err(GameError::BattleAlreadyFinished)
    );
    let r = reveal_and_execute_turn(
        &mut battle,
        &p1,
        &p2,
        true,
        BattleStance::Balanced,
        1,
        false,
        1001,
    );
    assert_eq!(r, Err(GameError::BattleAlreadyFinished));
}

#[test]
fn special_on_cooldown_is_rejected() {
    // After a special the acting side's cooldown stands at two, so a special
    // on its next own turn is refused.
    let mage = create_character(CharacterClass::Mage, "Aza".to_string()).unwrap();
    let tank = create_character(CharacterClass::Tank, "Wall".to_string()).unwrap();
    let mut battle = create_battle(&mage, &tank, MatchType::Casual, 0, false, 6000).unwrap();

    let h0 = compute_commitment(BattleStance::Balanced, 1);
    commit_stance(&mut battle, true, h0, 6400).unwrap();
    reveal_and_execute_turn(&mut battle, &mage, &tank, true, BattleStance::Balanced, 1, true, 6400)
        .unwrap();
    assert_eq!(battle.player1_special_cooldown, 2);

    let h1 = compute_commitment(BattleStance::Balanced, 2);
    commit_stance(&mut battle, false, h1, 6401).unwrap();
    reveal_and_execute_turn(&mut battle, &tank, &mage, false, BattleStance::Balanced, 2, false, 6401)
        .unwrap();

    let h2 = compute_commitment(BattleStance::Balanced, 3);
    commit_stance(&mut battle, true, h2, 6402).unwrap();
    let r = reveal_and_execute_turn(
        &mut battle,
        &mage,
        &tank,
        true,
        BattleStance::Balanced,
        3,
        true,
        6402,
    );
    assert_eq!(r, Err(GameError::SpecialOnCooldown));
}

#[test]
fn wildcard_decisions_need_an_active_wildcard() {
    let p1 = create_character(CharacterClass::Warrior, "P1".to_string()).unwrap();
    let p2 = create_character(CharacterClass::Tank, "P2".to_string()).unwrap();
    let mut battle = create_battle(&p1, &p2, MatchType::Casual, 0, false, 1000).unwrap();
    assert_eq!(
        decide_wildcard(&mut battle, true, true, 1001),
        Err(GameError::NoActiveWildcard)
    );
    assert_eq!(
        resolve_wildcard_timeout(&mut battle, 1001),
        Err(GameError::NoActiveWildcard)
    );
}

#[test]
fn late_wildcard_decision_is_rejected() {
    let p1 = create_character(CharacterClass::Warrior, "P1".to_string()).unwrap();
    let p2 = create_character(CharacterClass::Tank, "P2".to_string()).unwrap();
    let mut battle = create_battle(&p1, &p2, MatchType::Casual, 0, false, 1500).unwrap();

    let h = compute_commitment(BattleStance::Balanced, 9);
    commit_stance(&mut battle, true, h, 2048).unwrap();
    reveal_and_execute_turn(&mut battle, &p1, &p2, true, BattleStance::Balanced, 9, false, 2048)
        .unwrap();
    assert!(battle.wildcard_active);
    assert_eq!(
        decide_wildcard(&mut battle, true, true, 2059),
        Err(GameError::DecisionTimeout)
    );
}

#[test]
fn ai_turn_needs_an_ai_battle_on_its_turn() {
    let p1 = create_character(CharacterClass::Warrior, "P1".to_string()).unwrap();
    let p2 = create_character(CharacterClass::Tank, "P2".to_string()).unwrap();
    let mut pvp = create_battle(&p1, &p2, MatchType::Casual, 0, false, 1000).unwrap();
    assert_eq!(
        execute_ai_turn(&mut pvp, &p1, &p2, 1001),
        Err(GameError::NotAiBattle)
    );
    let mut pve = create_battle(&p1, &p2, MatchType::Casual, 0, true, 1000).unwrap();
    assert_eq!(
        execute_ai_turn(&mut pve, &p1, &p2, 1001),
        Err(GameError::NotAiTurn)
    );
}

#[test]
fn finalize_needs_a_finished_battle_with_a_winner() {
    let mut p1 = create_character(CharacterClass::Warrior, "P1".to_string()).unwrap();
    let mut p2 = create_character(CharacterClass::Tank, "P2".to_string()).unwrap();
    let mut battle = create_battle(&p1, &p2, MatchType::Casual, 0, false, 1000).unwrap();
    assert_eq!(
        finalize_battle(&battle, &mut p1, &mut p2),
        Err(GameError::BattleNotFinished)
    );
    battle.is_finished = true;
    assert_eq!(
        finalize_battle(&battle, &mut p1, &mut p2),
        Err(GameError::NoWinner)
    );
}

#[test]
fn xp_curve_matches_the_table() {
    assert_eq!(get_required_xp(1), 100);
    assert_eq!(get_required_xp(2), 250);
    assert_eq!(get_required_xp(5), 1000);
    assert_eq!(get_required_xp(10), 4000);
    assert_eq!(get_required_xp(11), 4500);
    assert_eq!(get_required_xp(20), 9000);
}

#[test]
fn rank_tiers_follow_the_mmr_thresholds() {
    let mut c = create_character(CharacterClass::Warrior, "R".to_string()).unwrap();
    let cases: Vec<(u64, RankTier)> = vec![
        (0, RankTier::Bronze),
        (999, RankTier::Bronze),
        (1000, RankTier::Silver),
        (1499, RankTier::Silver),
        (1500, RankTier::Gold),
        (1999, RankTier::Gold),
        (2000, RankTier::Platinum),
        (2499, RankTier::Platinum),
        (2500, RankTier::Diamond),
        (2999, RankTier::Diamond),
        (3000, RankTier::Master),
    ];
    for (mmr, tier) in cases {
        c.mmr = mmr;
        update_rank_tier(&mut c);
        assert_eq!(c.rank_tier, tier);
    }
}

#[test]
fn stance_modifiers_compound_with_truncation() {
    let p1 = create_character(CharacterClass::Warrior, "P1".to_string()).unwrap();
    let p2 = create_character(CharacterClass::Tank, "P2".to_string()).unwrap();
    let mut battle = create_battle(&p1, &p2, MatchType::Casual, 0, false, 1000).unwrap();

    // Aggressive attacker into a Defensive defender: 10 -> 13 -> 6.
    let d = apply_stance_modifiers(10, BattleStance::Aggressive, BattleStance::Defensive, true, &mut battle);
    assert_eq!(d, 6);
    // Counter misses a non-Aggressive defender entirely.
    let d = apply_stance_modifiers(10, BattleStance::Counter, BattleStance::Balanced, true, &mut battle);
    assert_eq!(d, 0);
    // Counter lands half again into an Aggressive defender: 10 -> 15 -> 22.
    let d = apply_stance_modifiers(10, BattleStance::Counter, BattleStance::Aggressive, true, &mut battle);
    assert_eq!(d, 22);
    // Berserker doubles and self-wounds a quarter of the doubled value.
    let hp_before = battle.player1_hp;
    let d = apply_stance_modifiers(10, BattleStance::Berserker, BattleStance::Balanced, true, &mut battle);
    assert_eq!(d, 20);
    assert_eq!(battle.player1_hp, hp_before - 5);
}

#[test]
fn decision_gating_names_exactly_two_events() {
    assert!(requires_decision(WildcardEvent::DoubleOrNothing));
    assert!(requires_decision(WildcardEvent::DeathRoulette));
    assert!(!requires_decision(WildcardEvent::ReverseRoles));
    assert!(!requires_decision(WildcardEvent::MysteryBox));
    assert!(!requires_decision(WildcardEvent::ComboBreaker));
    assert!(!requires_decision(WildcardEvent::TimeWarp));
    assert!(!requires_decision(WildcardEvent::LuckySeven));
    assert!(!requires_decision(WildcardEvent::GamblersFallacy));
}
