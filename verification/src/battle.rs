//! The battle record: one combat session's full transient state between two
//! combatants, mutated turn by turn by the state machine and consumed once by
//! the progression resolver.

use vstd::prelude::*;
use crate::character::Character;
use crate::sat::sat_add16;
use crate::types::{BattleStance, GameError, LogEntry, MatchType, WildcardEvent};

verus! {

/// The most entries the battle log retains; once full, the oldest entries
/// are preserved and newer ones are dropped.
pub const BATTLE_LOG_CAP: usize = 50;

/// One combat session's transient state. Sides are 1 and 2; battle-local
/// health starts from each combatant's maximum health and is independent of
/// the combatant's persisted health.
pub struct Battle {
    pub match_type: MatchType,
    pub stake_amount: u64,
    pub created_at: i64,
    pub turn_number: u32,
    pub current_turn: u8,
    pub is_finished: bool,
    pub winner: Option<u8>,
    pub is_vs_ai: bool,
    pub abandoned: bool,
    pub last_action_time: i64,
    pub player1_hp: u64,
    pub player2_hp: u64,
    pub player1_combo: u16,
    pub player2_combo: u16,
    pub player1_stance: BattleStance,
    pub player2_stance: BattleStance,
    pub player1_stance_committed: bool,
    pub player2_stance_committed: bool,
    pub player1_stance_hash: Vec<u8>,
    pub player2_stance_hash: Vec<u8>,
    pub player1_dot_damage: u64,
    pub player2_dot_damage: u64,
    pub player1_dot_turns: u8,
    pub player2_dot_turns: u8,
    pub player1_reflection: u16,
    pub player2_reflection: u16,
    pub player1_miss_count: u16,
    pub player2_miss_count: u16,
    pub player1_special_cooldown: u8,
    pub player2_special_cooldown: u8,
    pub last_damage_roll: u8,
    pub wildcard_active: bool,
    pub wildcard_type: Option<WildcardEvent>,
    pub wildcard_decision_deadline: i64,
    pub wildcard_player1_decision: Option<bool>,
    pub wildcard_player2_decision: Option<bool>,
    pub battle_log: Vec<LogEntry>,
}

/// The mathematical model of a `Battle`.
#[verifier::ext_equal]
pub struct BattleView {
    pub match_type: MatchType,
    pub stake_amount: u64,
    pub created_at: i64,
    pub turn_number: u32,
    pub current_turn: u8,
    pub is_finished: bool,
    pub winner: Option<u8>,
    pub is_vs_ai: bool,
    pub abandoned: bool,
    pub last_action_time: i64,
    pub player1_hp: u64,
    pub player2_hp: u64,
    pub player1_combo: u16,
    pub player2_combo: u16,
    pub player1_stance: BattleStance,
    pub player2_stance: BattleStance,
    pub player1_stance_committed: bool,
    pub player2_stance_committed: bool,
    pub player1_stance_hash: Seq<u8>,
    pub player2_stance_hash: Seq<u8>,
    pub player1_dot_damage: u64,
    pub player2_dot_damage: u64,
    pub player1_dot_turns: u8,
    pub player2_dot_turns: u8,
    pub player1_reflection: u16,
    pub player2_reflection: u16,
    pub player1_miss_count: u16,
    pub player2_miss_count: u16,
    pub player1_special_cooldown: u8,
    pub player2_special_cooldown: u8,
    pub last_damage_roll: u8,
    pub wildcard_active: bool,
    pub wildcard_type: Option<WildcardEvent>,
    pub wildcard_decision_deadline: i64,
    pub wildcard_player1_decision: Option<bool>,
    pub wildcard_player2_decision: Option<bool>,
    pub battle_log: Seq<LogEntry>,
}

impl View for Battle {
    type V = BattleView;

    open spec fn view(&self) -> BattleView {
        BattleView {
            match_type: self.match_type,
            stake_amount: self.stake_amount,
            created_at: self.created_at,
            turn_number: self.turn_number,
            current_turn: self.current_turn,
            is_finished: self.is_finished,
            winner: self.winner,
            is_vs_ai: self.is_vs_ai,
            abandoned: self.abandoned,
            last_action_time: self.last_action_time,
            player1_hp: self.player1_hp,
            player2_hp: self.player2_hp,
            player1_combo: self.player1_combo,
            player2_combo: self.player2_combo,
            player1_stance: self.player1_stance,
            player2_stance: self.player2_stance,
            player1_stance_committed: self.player1_stance_committed,
            player2_stance_committed: self.player2_stance_committed,
            player1_stance_hash: self.player1_stance_hash@,
            player2_stance_hash: self.player2_stance_hash@,
            player1_dot_damage: self.player1_dot_damage,
            player2_dot_damage: self.player2_dot_damage,
            player1_dot_turns: self.player1_dot_turns,
            player2_dot_turns: self.player2_dot_turns,
            player1_reflection: self.player1_reflection,
            player2_reflection: self.player2_reflection,
            player1_miss_count: self.player1_miss_count,
            player2_miss_count: self.player2_miss_count,
            player1_special_cooldown: self.player1_special_cooldown,
            player2_special_cooldown: self.player2_special_cooldown,
            last_damage_roll: self.last_damage_roll,
            wildcard_active: self.wildcard_active,
            wildcard_type: self.wildcard_type,
            wildcard_decision_deadline: self.wildcard_decision_deadline,
            wildcard_player1_decision: self.wildcard_player1_decision,
            wildcard_player2_decision: self.wildcard_player2_decision,
            battle_log: self.battle_log@,
        }
    }
}

impl BattleView {
    /// Well-formedness: the turn indicator names a side, a finished battle
    /// has a winner naming a side, timestamps are non-negative, the log is
    /// within its cap, and wildcard decisions are cleared while no wildcard
    /// is active.
    pub open spec fn wf(self) -> bool {
        &&& self.current_turn == 1 || self.current_turn == 2
        &&& self.is_finished ==> self.winner is Some
        &&& match self.winner {
            Some(w) => w == 1 || w == 2,
            None => true,
        }
        &&& 0 <= self.created_at
        &&& 0 <= self.last_action_time
        &&& self.battle_log.len() <= BATTLE_LOG_CAP
        &&& !self.wildcard_active ==> self.wildcard_player1_decision is None
            && self.wildcard_player2_decision is None
    }

    /// The battle-local health of the given side.
    pub open spec fn hp_of(self, is_player1: bool) -> u64 {
        if is_player1 {
            self.player1_hp
        } else {
            self.player2_hp
        }
    }

    /// The combo counter of the given side.
    pub open spec fn combo_of(self, is_player1: bool) -> u16 {
        if is_player1 {
            self.player1_combo
        } else {
            self.player2_combo
        }
    }

    /// The special-ability cooldown of the given side.
    pub open spec fn cooldown_of(self, is_player1: bool) -> u8 {
        if is_player1 {
            self.player1_special_cooldown
        } else {
            self.player2_special_cooldown
        }
    }

    /// The battle after the acting side steals the opponent's combo counter:
    /// the opponent's combo is added to the actor's (capped) and then zeroed.
    pub open spec fn steal_combo(self, is_p1: bool) -> BattleView {
        if is_p1 {
            BattleView {
                player1_combo: sat_add16(self.player1_combo, self.player2_combo),
                player2_combo: 0u16,
                ..self
            }
        } else {
            BattleView {
                player2_combo: sat_add16(self.player2_combo, self.player1_combo),
                player1_combo: 0u16,
                ..self
            }
        }
    }

    /// The log after appending an entry, unless the cap is reached.
    pub open spec fn log_append(self, entry: LogEntry) -> Seq<LogEntry> {
        if self.battle_log.len() < BATTLE_LOG_CAP {
            self.battle_log.push(entry)
        } else {
            self.battle_log
        }
    }

    /// The battle after recording an entry in the bounded log.
    pub open spec fn with_log(self, entry: LogEntry) -> BattleView {
        BattleView { battle_log: self.log_append(entry), ..self }
    }
}

/// The record `create_battle` yields: health drawn from each combatant's
/// maximum, side 1 to act first, every transient counter zeroed.
pub open spec fn new_battle_spec(
    p1_max_hp: u64,
    p2_max_hp: u64,
    match_type: MatchType,
    stake_amount: u64,
    is_vs_ai: bool,
    now: i64,
) -> BattleView {
    BattleView {
        match_type: match_type,
        stake_amount: stake_amount,
        created_at: now,
        turn_number: 0u32,
        current_turn: 1u8,
        is_finished: false,
        winner: None,
        is_vs_ai: is_vs_ai,
        abandoned: false,
        last_action_time: now,
        player1_hp: p1_max_hp,
        player2_hp: p2_max_hp,
        player1_combo: 0u16,
        player2_combo: 0u16,
        player1_stance: BattleStance::Balanced,
        player2_stance: BattleStance::Balanced,
        player1_stance_committed: false,
        player2_stance_committed: false,
        player1_stance_hash: Seq::empty(),
        player2_stance_hash: Seq::empty(),
        player1_dot_damage: 0u64,
        player2_dot_damage: 0u64,
        player1_dot_turns: 0u8,
        player2_dot_turns: 0u8,
        player1_reflection: 0u16,
        player2_reflection: 0u16,
        player1_miss_count: 0u16,
        player2_miss_count: 0u16,
        player1_special_cooldown: 0u8,
        player2_special_cooldown: 0u8,
        last_damage_roll: 0u8,
        wildcard_active: false,
        wildcard_type: None,
        wildcard_decision_deadline: 0i64,
        wildcard_player1_decision: None,
        wildcard_player2_decision: None,
        battle_log: Seq::empty(),
    }
}

/// Starts a battle between two combatants. Both must be alive (the defender
/// check is waived against a scripted opponent); battle-local health starts
/// at each side's maximum health and side 1 holds the first turn.
pub fn create_battle(
    player1_character: &Character,
    player2_character: &Character,
    match_type: MatchType,
    stake_amount: u64,
    is_vs_ai: bool,
    now: i64,
) -> (r: Result<Battle, GameError>)
    requires
        now >= 0,
    ensures
        r is Ok <==> player1_character.current_hp > 0 && (is_vs_ai
            || player2_character.current_hp > 0),
        r matches Ok(b) ==> b@ =~= new_battle_spec(
            player1_character.max_hp,
            player2_character.max_hp,
            match_type,
            stake_amount,
            is_vs_ai,
            now,
        ),
        r matches Ok(b) ==> b@.wf(),
        r matches Err(e) ==> e == GameError::CharacterDead,
{
    if player1_character.current_hp == 0 {
        return Err(GameError::CharacterDead);
    }
    if !is_vs_ai && player2_character.current_hp == 0 {
        return Err(GameError::CharacterDead);
    }
    Ok(
        Battle {
            match_type,
            stake_amount,
            created_at: now,
            turn_number: 0,
            current_turn: 1,
            is_finished: false,
            winner: None,
            is_vs_ai,
            abandoned: false,
            last_action_time: now,
            player1_hp: player1_character.max_hp,
            player2_hp: player2_character.max_hp,
            player1_combo: 0,
            player2_combo: 0,
            player1_stance: BattleStance::Balanced,
            player2_stance: BattleStance::Balanced,
            player1_stance_committed: false,
            player2_stance_committed: false,
            player1_stance_hash: Vec::new(),
            player2_stance_hash: Vec::new(),
            player1_dot_damage: 0,
            player2_dot_damage: 0,
            player1_dot_turns: 0,
            player2_dot_turns: 0,
            player1_reflection: 0,
            player2_reflection: 0,
            player1_miss_count: 0,
            player2_miss_count: 0,
            player1_special_cooldown: 0,
            player2_special_cooldown: 0,
            last_damage_roll: 0,
            wildcard_active: false,
            wildcard_type: None,
            wildcard_decision_deadline: 0,
            wildcard_player1_decision: None,
            wildcard_player2_decision: None,
            battle_log: Vec::new(),
        },
    )
}

impl Battle {
    /// Appends an entry to the battle log unless the cap is reached; the
    /// oldest entries are the ones retained.
    pub fn log_battle_event(&mut self, entry: LogEntry)
        ensures
            final(self)@ =~= old(self)@.with_log(entry),
    {
        if self.battle_log.len() < BATTLE_LOG_CAP {
            self.battle_log.push(entry);
        }
    }
}

/// True when a battle's age has passed the absolute expiry window within
/// which commits and reveals are accepted.
pub open spec fn battle_expired(b: BattleView, now: i64) -> bool {
    now - b.created_at >= crate::BATTLE_EXPIRY_SECONDS
}

impl Battle {
    /// Rejects actions on a battle older than the absolute expiry window.
    pub fn check_battle_timeout(&self, now: i64) -> (r: Result<(), GameError>)
        requires
            0 <= self@.created_at,
            0 <= now,
        ensures
            r is Ok <==> !battle_expired(self@, now),
            r matches Err(e) ==> e == GameError::BattleExpired,
    {
        let time_since_creation: i64 = now - self.created_at;
        if time_since_creation < crate::BATTLE_EXPIRY_SECONDS {
            Ok(())
        } else {
            Err(GameError::BattleExpired)
        }
    }
}

} // verus!
