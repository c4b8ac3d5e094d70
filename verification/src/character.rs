//! The combatant record: a stat container created once per character and
//! mutated only by the progression resolver after a battle concludes, plus
//! the external heal operation that resets current health to the maximum.

use vstd::prelude::*;
use vstd::utf8::encode_utf8;
use crate::types::{Achievement, CharacterClass, GameError, RankTier};

verus! {

/// A character's persistent stat record.
pub struct Character {
    pub character_class: CharacterClass,
    pub name: String,
    pub level: u16,
    pub xp: u64,
    pub max_hp: u64,
    pub current_hp: u64,
    pub base_damage_min: u16,
    pub base_damage_max: u16,
    pub crit_chance: u16,
    pub dodge_chance: u16,
    pub defense: u16,
    pub total_wins: u32,
    pub total_losses: u32,
    pub max_combo: u16,
    pub mmr: u64,
    pub special_cooldown: u8,
    pub rank_tier: RankTier,
    pub season_wins: u32,
    pub season_losses: u32,
    pub achievements: Vec<Achievement>,
}

/// The mathematical model of a `Character`.
#[verifier::ext_equal]
pub struct CharacterView {
    pub character_class: CharacterClass,
    pub name: Seq<char>,
    pub level: u16,
    pub xp: u64,
    pub max_hp: u64,
    pub current_hp: u64,
    pub base_damage_min: u16,
    pub base_damage_max: u16,
    pub crit_chance: u16,
    pub dodge_chance: u16,
    pub defense: u16,
    pub total_wins: u32,
    pub total_losses: u32,
    pub max_combo: u16,
    pub mmr: u64,
    pub special_cooldown: u8,
    pub rank_tier: RankTier,
    pub season_wins: u32,
    pub season_losses: u32,
    pub achievements: Seq<Achievement>,
}

impl View for Character {
    type V = CharacterView;

    open spec fn view(&self) -> CharacterView {
        CharacterView {
            character_class: self.character_class,
            name: self.name@,
            level: self.level,
            xp: self.xp,
            max_hp: self.max_hp,
            current_hp: self.current_hp,
            base_damage_min: self.base_damage_min,
            base_damage_max: self.base_damage_max,
            crit_chance: self.crit_chance,
            dodge_chance: self.dodge_chance,
            defense: self.defense,
            total_wins: self.total_wins,
            total_losses: self.total_losses,
            max_combo: self.max_combo,
            mmr: self.mmr,
            special_cooldown: self.special_cooldown,
            rank_tier: self.rank_tier,
            season_wins: self.season_wins,
            season_losses: self.season_losses,
            achievements: self.achievements@,
        }
    }
}

impl CharacterView {
    /// Well-formedness: the level lies in its 1..=50 range, the damage range
    /// is non-empty, health is positive-capped and never exceeds the maximum.
    pub open spec fn wf(self) -> bool {
        &&& 1 <= self.level <= 50
        &&& self.base_damage_min <= self.base_damage_max
        &&& 1 <= self.max_hp
        &&& self.current_hp <= self.max_hp
    }
}

/// The base stats a class starts with: (max health, minimum damage, maximum
/// damage, crit chance, dodge chance).
pub open spec fn class_base_stats(class: CharacterClass) -> (u64, u16, u16, u16, u16) {
    match class {
        CharacterClass::Warrior => (120u64, 8u16, 15u16, 15u16, 0u16),
        CharacterClass::Assassin => (90u64, 12u16, 20u16, 35u16, 20u16),
        CharacterClass::Mage => (80u64, 10u16, 18u16, 20u16, 0u16),
        CharacterClass::Tank => (150u64, 6u16, 12u16, 10u16, 0u16),
        CharacterClass::Trickster => (100u64, 9u16, 16u16, 25u16, 15u16),
    }
}

/// The record `create_character` yields for the given class and name.
pub open spec fn new_character_spec(class: CharacterClass, name: Seq<char>) -> CharacterView {
    let (hp, dmin, dmax, crit, dodge) = class_base_stats(class);
    CharacterView {
        character_class: class,
        name: name,
        level: 1u16,
        xp: 0u64,
        max_hp: hp,
        current_hp: hp,
        base_damage_min: dmin,
        base_damage_max: dmax,
        crit_chance: crit,
        dodge_chance: dodge,
        defense: 0u16,
        total_wins: 0u32,
        total_losses: 0u32,
        max_combo: 0u16,
        mmr: 1000u64,
        special_cooldown: 0u8,
        rank_tier: RankTier::Bronze,
        season_wins: 0u32,
        season_losses: 0u32,
        achievements: Seq::empty(),
    }
}

/// Creates a combatant with the class's base stats, level 1, no progression
/// and the starting MMR of 1000. Rejects a name longer than 32 bytes.
pub fn create_character(character_class: CharacterClass, name: String) -> (r: Result<
    Character,
    GameError,
>)
    ensures
        r is Ok <==> encode_utf8(name@).len() <= 32,
        r matches Ok(c) ==> c@ =~= new_character_spec(character_class, name@),
        r matches Ok(c) ==> c@.wf(),
        r matches Err(e) ==> e == GameError::NameTooLong,
{
    if name.as_str().as_bytes().len() > 32 {
        return Err(GameError::NameTooLong);
    }
    let (max_hp, dmin, dmax, crit, dodge): (u64, u16, u16, u16, u16) = match character_class {
        CharacterClass::Warrior => (120, 8, 15, 15, 0),
        CharacterClass::Assassin => (90, 12, 20, 35, 20),
        CharacterClass::Mage => (80, 10, 18, 20, 0),
        CharacterClass::Tank => (150, 6, 12, 10, 0),
        CharacterClass::Trickster => (100, 9, 16, 25, 15),
    };
    Ok(
        Character {
            character_class,
            name,
            level: 1,
            xp: 0,
            max_hp,
            current_hp: max_hp,
            base_damage_min: dmin,
            base_damage_max: dmax,
            crit_chance: crit,
            dodge_chance: dodge,
            defense: 0,
            total_wins: 0,
            total_losses: 0,
            max_combo: 0,
            mmr: 1000,
            special_cooldown: 0,
            rank_tier: RankTier::Bronze,
            season_wins: 0,
            season_losses: 0,
            achievements: Vec::new(),
        },
    )
}

/// Restores a combatant to full health; fails with `AlreadyFullHealth` when
/// nothing is missing. The payment collecting side of healing is a
/// collaborator concern.
pub fn heal_character(character: &mut Character) -> (r: Result<(), GameError>)
    ensures
        r is Ok <==> old(character).current_hp < old(character).max_hp,
        r is Ok ==> final(character)@ =~= (CharacterView {
            current_hp: old(character).max_hp,
            ..old(character)@
        }),
        r is Err ==> final(character)@ =~= old(character)@,
        r matches Err(e) ==> e == GameError::AlreadyFullHealth,
{
    if character.current_hp >= character.max_hp {
        return Err(GameError::AlreadyFullHealth);
    }
    character.current_hp = character.max_hp;
    Ok(())
}

} // verus!
