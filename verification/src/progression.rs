//! The progression resolver: once a battle is terminal with a winner, it
//! awards experience, win/loss counters, achievements, level-ups against a
//! fixed curve, and MMR with its derived rank tier, and heals both combatants
//! to full.

use vstd::prelude::*;
use crate::battle::{Battle, BattleView};
use crate::character::{Character, CharacterView};
use crate::sat::{add_sat16, add_sat64, sat_add16, sat_add64, sat_sub64, sub_sat64};
use crate::types::{Achievement, GameError, MatchType, RankTier};

verus! {

/// The experience required to leave the given level: a fixed curve for the
/// first ten levels, then five hundred more per level.
pub open spec fn required_xp_spec(level: u16) -> u64 {
    if level == 0 {
        0u64
    } else if level == 1 {
        100u64
    } else if level == 2 {
        250u64
    } else if level == 3 {
        450u64
    } else if level == 4 {
        700u64
    } else if level == 5 {
        1000u64
    } else if level == 6 {
        1400u64
    } else if level == 7 {
        1900u64
    } else if level == 8 {
        2500u64
    } else if level == 9 {
        3200u64
    } else if level == 10 {
        4000u64
    } else {
        (4000 + (level - 10) * 500) as u64
    }
}

/// Yields the experience threshold for a level.
pub fn get_required_xp(level: u16) -> (r: u64)
    ensures
        r == required_xp_spec(level),
{
    if level == 0 {
        0
    } else if level == 1 {
        100
    } else if level == 2 {
        250
    } else if level == 3 {
        450
    } else if level == 4 {
        700
    } else if level == 5 {
        1000
    } else if level == 6 {
        1400
    } else if level == 7 {
        1900
    } else if level == 8 {
        2500
    } else if level == 9 {
        3200
    } else if level == 10 {
        4000
    } else {
        4000 + (level as u64 - 10) * 500
    }
}

/// The rank bracket an MMR value falls in.
pub open spec fn rank_tier_spec(mmr: u64) -> RankTier {
    if mmr <= 999 {
        RankTier::Bronze
    } else if mmr <= 1499 {
        RankTier::Silver
    } else if mmr <= 1999 {
        RankTier::Gold
    } else if mmr <= 2499 {
        RankTier::Platinum
    } else if mmr <= 2999 {
        RankTier::Diamond
    } else {
        RankTier::Master
    }
}

/// Recomputes a combatant's rank tier from its MMR.
pub fn update_rank_tier(character: &mut Character)
    ensures
        final(character)@ =~= (CharacterView {
            rank_tier: rank_tier_spec(old(character).mmr),
            ..old(character)@
        }),
{
    character.rank_tier = if character.mmr <= 999 {
        RankTier::Bronze
    } else if character.mmr <= 1499 {
        RankTier::Silver
    } else if character.mmr <= 1999 {
        RankTier::Gold
    } else if character.mmr <= 2499 {
        RankTier::Platinum
    } else if character.mmr <= 2999 {
        RankTier::Diamond
    } else {
        RankTier::Master
    };
}

/// Whether the tag is already in the achievement set.
pub fn has_achievement(achievements: &Vec<Achievement>, tag: Achievement) -> (r: bool)
    ensures
        r == achievements@.contains(tag),
{
    let n = achievements.len();
    let mut i: usize = 0;
    while i < n
        invariant
            n == achievements@.len(),
            0 <= i <= n,
            forall|j: int| 0 <= j < i ==> achievements@[j] != tag,
        decreases n - i,
    {
        if achievements[i] == tag {
            return true;
        }
        i += 1;
    }
    false
}

/// The achievement set after one tag is granted, unless already held.
pub open spec fn grant_spec(c: CharacterView, when: bool, tag: Achievement) -> CharacterView {
    if when && !c.achievements.contains(tag) {
        CharacterView { achievements: c.achievements.push(tag), ..c }
    } else {
        c
    }
}

/// The combatant after the post-win achievement checks: the first, tenth and
/// hundredth win, and a flawless tag while health stands at its maximum.
pub open spec fn award_achievements_spec(c: CharacterView) -> CharacterView {
    let c1 = grant_spec(c, c.total_wins == 1, Achievement::FirstWin);
    let c2 = grant_spec(c1, c1.total_wins == 10, Achievement::TenWins);
    let c3 = grant_spec(c2, c2.total_wins == 100, Achievement::HundredWins);
    grant_spec(c3, c3.current_hp == c3.max_hp, Achievement::Flawless)
}

/// Grants the achievements a freshly recorded win may have earned.
pub fn check_achievements(character: &mut Character)
    ensures
        final(character)@ =~= award_achievements_spec(old(character)@),
{
    if character.total_wins == 1 && !has_achievement(&character.achievements, Achievement::FirstWin) {
        character.achievements.push(Achievement::FirstWin);
    }
    let ghost c1 = character@;
    assert(c1 =~= grant_spec(old(character)@, old(character)@.total_wins == 1, Achievement::FirstWin));
    if character.total_wins == 10 && !has_achievement(&character.achievements, Achievement::TenWins) {
        character.achievements.push(Achievement::TenWins);
    }
    let ghost c2 = character@;
    assert(c2 =~= grant_spec(c1, c1.total_wins == 10, Achievement::TenWins));
    if character.total_wins == 100 && !has_achievement(
        &character.achievements,
        Achievement::HundredWins,
    ) {
        character.achievements.push(Achievement::HundredWins);
    }
    let ghost c3 = character@;
    assert(c3 =~= grant_spec(c2, c2.total_wins == 100, Achievement::HundredWins));
    if character.current_hp == character.max_hp && !has_achievement(
        &character.achievements,
        Achievement::Flawless,
    ) {
        character.achievements.push(Achievement::Flawless);
    }
    assert(character@ =~= grant_spec(c3, c3.current_hp == c3.max_hp, Achievement::Flawless));
}

/// The combatant after a level-up check: with enough experience and below the
/// level cap of fifty, the level rises, the threshold is paid, the maximum
/// health grows by five (healing to it), both damage bounds by two, and crit
/// chance and defense by one.
pub open spec fn level_up_spec(c: CharacterView) -> CharacterView {
    let required = required_xp_spec(c.level);
    if c.xp >= required && c.level < 50 {
        CharacterView {
            level: (c.level + 1) as u16,
            xp: (c.xp - required) as u64,
            max_hp: sat_add64(c.max_hp, 5),
            current_hp: sat_add64(c.max_hp, 5),
            base_damage_min: sat_add16(c.base_damage_min, 2),
            base_damage_max: sat_add16(c.base_damage_max, 2),
            crit_chance: sat_add16(c.crit_chance, 1),
            defense: sat_add16(c.defense, 1),
            ..c
        }
    } else {
        c
    }
}

/// Applies the level-up check to a combatant.
pub fn check_level_up(character: &mut Character)
    ensures
        final(character)@ =~= level_up_spec(old(character)@),
{
    let required_xp = get_required_xp(character.level);
    if character.xp >= required_xp && character.level < 50 {
        character.level = character.level + 1;
        character.xp = character.xp - required_xp;
        character.max_hp = add_sat64(character.max_hp, 5);
        character.current_hp = character.max_hp;
        character.base_damage_min = add_sat16(character.base_damage_min, 2);
        character.base_damage_max = add_sat16(character.base_damage_max, 2);
        character.crit_chance = add_sat16(character.crit_chance, 1);
        character.defense = add_sat16(character.defense, 1);
    }
}

/// The winner's record after a battle: the experience award and win counters,
/// a heal to full, achievement checks, the level-up check, and an MMR gain of
/// twenty-five plus five per level of difference, with the rank recomputed.
pub open spec fn winner_update_spec(c: CharacterView, xp: u64, level_diff: u64) -> CharacterView {
    let c1 = CharacterView {
        xp: sat_add64(c.xp, xp),
        total_wins: if c.total_wins < u32::MAX {
            (c.total_wins + 1) as u32
        } else {
            u32::MAX
        },
        season_wins: if c.season_wins < u32::MAX {
            (c.season_wins + 1) as u32
        } else {
            u32::MAX
        },
        current_hp: c.max_hp,
        ..c
    };
    let c2 = award_achievements_spec(c1);
    let c3 = level_up_spec(c2);
    let c4 = CharacterView { mmr: sat_add64(c3.mmr, (25 + level_diff * 5) as u64), ..c3 };
    CharacterView { rank_tier: rank_tier_spec(c4.mmr), ..c4 }
}

/// Applies a win to a combatant's persistent record.
pub fn update_winner_stats(character: &mut Character, xp: u64, level_diff: u64)
    requires
        level_diff <= 49,
    ensures
        final(character)@ =~= winner_update_spec(old(character)@, xp, level_diff),
{
    character.xp = add_sat64(character.xp, xp);
    character.total_wins = character.total_wins.saturating_add(1);
    character.season_wins = character.season_wins.saturating_add(1);
    character.current_hp = character.max_hp;
    let ghost c1 = character@;

    check_achievements(character);
    check_level_up(character);

    let mmr_gain: u64 = 25 + level_diff * 5;
    character.mmr = add_sat64(character.mmr, mmr_gain);
    let ghost c4 = character@;

    update_rank_tier(character);
    assert(character@ =~= (CharacterView { rank_tier: rank_tier_spec(c4.mmr), ..c4 }));
}

/// The loser's record after a battle: loss counters, a heal to full, and an
/// MMR drop of fifteen plus three per level of difference (floored at zero),
/// with the rank recomputed.
pub open spec fn loser_update_spec(c: CharacterView, level_diff: u64) -> CharacterView {
    let c1 = CharacterView {
        total_losses: if c.total_losses < u32::MAX {
            (c.total_losses + 1) as u32
        } else {
            u32::MAX
        },
        season_losses: if c.season_losses < u32::MAX {
            (c.season_losses + 1) as u32
        } else {
            u32::MAX
        },
        current_hp: c.max_hp,
        mmr: sat_sub64(c.mmr, (15 + level_diff * 3) as u64),
        ..c
    };
    CharacterView { rank_tier: rank_tier_spec(c1.mmr), ..c1 }
}

/// Applies a loss to a combatant's persistent record.
pub fn update_loser_stats(character: &mut Character, level_diff: u64)
    requires
        level_diff <= 49,
    ensures
        final(character)@ =~= loser_update_spec(old(character)@, level_diff),
{
    character.total_losses = character.total_losses.saturating_add(1);
    character.season_losses = character.season_losses.saturating_add(1);
    character.current_hp = character.max_hp;
    let mmr_loss: u64 = 15 + level_diff * 3;
    character.mmr = sub_sat64(character.mmr, mmr_loss);
    update_rank_tier(character);
}

/// The base experience a match category awards.
pub open spec fn base_xp_spec(match_type: MatchType) -> u64 {
    match match_type {
        MatchType::Casual => 50u64,
        MatchType::Ranked => 100u64,
        MatchType::Tournament => 200u64,
        MatchType::Staked => 150u64,
    }
}

/// The level difference between the two combatants.
pub open spec fn level_diff_spec(p1: CharacterView, p2: CharacterView) -> u64 {
    if p1.level >= p2.level {
        (p1.level - p2.level) as u64
    } else {
        (p2.level - p1.level) as u64
    }
}

/// The whole experience award: the category base plus ten per level of
/// difference, capped at fifty.
pub open spec fn xp_award_spec(match_type: MatchType, level_diff: u64) -> u64 {
    (base_xp_spec(match_type) + (if level_diff > 5 {
        50u64
    } else {
        (level_diff * 10) as u64
    })) as u64
}

/// What `finalize_battle` yields: the result and both combatant records after
/// the winner's and loser's updates.
pub open spec fn finalize_spec(b: BattleView, p1: CharacterView, p2: CharacterView) -> (
    Result<(), GameError>,
    CharacterView,
    CharacterView,
) {
    if !b.is_finished {
        (Err(GameError::BattleNotFinished), p1, p2)
    } else if b.winner is None {
        (Err(GameError::NoWinner), p1, p2)
    } else {
        let diff = level_diff_spec(p1, p2);
        let total_xp = xp_award_spec(b.match_type, diff);
        if b.winner == Some(1u8) {
            (Ok(()), winner_update_spec(p1, total_xp, diff), loser_update_spec(p2, diff))
        } else {
            (Ok(()), loser_update_spec(p1, diff), winner_update_spec(p2, total_xp, diff))
        }
    }
}

/// Runs the progression resolver on a terminal battle: the winner gains the
/// category's experience with the level-difference bonus and MMR, the loser
/// loses MMR (floored at zero), both heal to full and have their rank tiers
/// recomputed. Fails on a battle that is not finished or has no winner.
pub fn finalize_battle(
    battle: &Battle,
    player1_character: &mut Character,
    player2_character: &mut Character,
) -> (r: Result<(), GameError>)
    requires
        old(player1_character)@.wf(),
        old(player2_character)@.wf(),
    ensures
        (r, final(player1_character)@, final(player2_character)@) =~= finalize_spec(
            battle@,
            old(player1_character)@,
            old(player2_character)@,
        ),
        r is Ok <==> battle@.is_finished && battle@.winner is Some,
{
    if !battle.is_finished {
        return Err(GameError::BattleNotFinished);
    }
    let winner: u8 = match battle.winner {
        Some(w) => w,
        None => {
            return Err(GameError::NoWinner);
        },
    };

    let level_diff: u64 = if player1_character.level >= player2_character.level {
        (player1_character.level - player2_character.level) as u64
    } else {
        (player2_character.level - player1_character.level) as u64
    };
    let base_xp: u64 = match battle.match_type {
        MatchType::Casual => 50,
        MatchType::Ranked => 100,
        MatchType::Tournament => 200,
        MatchType::Staked => 150,
    };
    let xp_bonus: u64 = if level_diff > 5 {
        50
    } else {
        level_diff * 10
    };
    let total_xp: u64 = base_xp + xp_bonus;

    if winner == 1 {
        update_winner_stats(player1_character, total_xp, level_diff);
        update_loser_stats(player2_character, level_diff);
    } else {
        update_loser_stats(player1_character, level_diff);
        update_winner_stats(player2_character, total_xp, level_diff);
    }
    Ok(())
}

} // verus!
