//! The engine's enumerations: combatant classes, match categories, stances,
//! wildcard events, rank tiers, achievements, structured battle-log entries
//! and the error taxonomy.

use vstd::prelude::*;

verus! {

/// A combatant's class, fixed at creation; decides base stats, the critical
/// multiplier, the special ability and the wildcard trigger threshold.
#[derive(Clone, Copy, Debug, PartialEq, Eq, Structural)]
pub enum CharacterClass {
    Warrior,
    Assassin,
    Mage,
    Tank,
    Trickster,
}

/// The category a battle is played under; decides the base experience award.
#[derive(Clone, Copy, Debug, PartialEq, Eq, Structural)]
pub enum MatchType {
    Casual,
    Ranked,
    Tournament,
    Staked,
}

/// A per-turn tactical choice modifying damage dealt and received.
#[derive(Clone, Copy, Debug, PartialEq, Eq, Structural)]
pub enum BattleStance {
    Aggressive,
    Defensive,
    Balanced,
    Berserker,
    Counter,
}

/// A randomly triggered turn modifier. `DoubleOrNothing` and `DeathRoulette`
/// require an accept/decline decision from each side before resolving; the
/// other six apply within the turn that rolled them.
#[derive(Clone, Copy, Debug, PartialEq, Eq, Structural)]
pub enum WildcardEvent {
    DoubleOrNothing,
    ReverseRoles,
    MysteryBox,
    DeathRoulette,
    ComboBreaker,
    TimeWarp,
    LuckySeven,
    GamblersFallacy,
}

/// A skill bracket derived from a combatant's MMR.
#[derive(Clone, Copy, Debug, PartialEq, Eq, Structural)]
pub enum RankTier {
    Bronze,
    Silver,
    Gold,
    Platinum,
    Diamond,
    Master,
}

/// An achievement tag; the set on a combatant is append-only.
#[derive(Clone, Copy, Debug, PartialEq, Eq, Structural)]
pub enum Achievement {
    FirstWin,
    TenWins,
    HundredWins,
    Flawless,
    ComboMaster,
    TournamentWinner,
}

/// A structured entry of the bounded battle log. Sides are 1 and 2.
#[derive(Clone, Copy, Debug, PartialEq, Eq, Structural)]
pub enum LogEntry {
    DotDamage { side: u8, amount: u64 },
    TricksterWildcardBoost,
    WildcardTriggered { event: WildcardEvent, decision_required: bool },
    WildcardAutoDeclined { side: u8 },
    Forfeited { side: u8 },
    ReflectedDamage { side: u8, amount: u64 },
    DamageDealt { amount: u64 },
    BattleFinished { winner: u8 },
    DoubleOrNothingBothMiss,
    DoubleOrNothingBothBoost,
    DoubleOrNothingMiss { side: u8 },
    DoubleOrNothingBoost { side: u8 },
    DeathRouletteBoth { near_death_side: u8 },
    DeathRouletteNearDeath { side: u8 },
    DeathRouletteHeal { side: u8 },
}

impl CharacterClass {
    /// The class's display name.
    pub fn to_string(&self) -> (r: &'static str)
        ensures
            r@ == class_name(*self),
    {
        match self {
            CharacterClass::Warrior => "Warrior",
            CharacterClass::Assassin => "Assassin",
            CharacterClass::Mage => "Mage",
            CharacterClass::Tank => "Tank",
            CharacterClass::Trickster => "Trickster",
        }
    }
}

/// The characters of a class's display name.
pub open spec fn class_name(class: CharacterClass) -> Seq<char> {
    match class {
        CharacterClass::Warrior => "Warrior"@,
        CharacterClass::Assassin => "Assassin"@,
        CharacterClass::Mage => "Mage"@,
        CharacterClass::Tank => "Tank"@,
        CharacterClass::Trickster => "Trickster"@,
    }
}

/// The typed failures the engine reports; every operation either fully
/// applies or fails with one of these and no partial mutation.
#[derive(Clone, Copy, Debug, PartialEq, Eq, Structural)]
pub enum GameError {
    NameTooLong,
    BattleAlreadyFinished,
    NotYourTurn,
    BattleNotFinished,
    NoWinner,
    AlreadyFullHealth,
    CharacterDead,
    AlreadyCommitted,
    InvalidStanceReveal,
    SpecialOnCooldown,
    BattleExpired,
    NoActiveWildcard,
    DecisionTimeout,
    DecisionNotExpired,
    NotAiBattle,
    NotAiTurn,
}

} // verus!
