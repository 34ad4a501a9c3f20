//! The game engine's events as plain values: their stable kind names, the
//! line the log panel shows for each, and the attack test of the projectile
//! checks.
//!
//! Enumerated engine values inside an event (a session status, a quest
//! state, an alignment, an ending) arrive by their `Debug` names.
use vstd::prelude::*;

use crate::probes::{push_point, spec_point};
use crate::replay::GridPosition;
use crate::reports::{push_bool, spec_bool_text};
use crate::text::{extend_str, push_dec, push_int, spec_dec, spec_int, string_of};

verus! {

/// One engine event.
#[derive(Debug, Clone)]
pub enum GameEvent {
    Waited,
    Moved { from: GridPosition, to: GridPosition },
    MoveBlocked { target: GridPosition },
    AttackMissed { target: GridPosition },
    Attacked { monster_id: u64, damage: i32, remaining_hp: i32 },
    MonsterMoved { monster_id: u64, from: GridPosition, to: GridPosition },
    MonsterAttacked { monster_id: u64, damage: i32, remaining_hp: i32 },
    MonsterDefeated { monster_id: u64 },
    PlayerDefeated,
    VictoryAchieved,
    CommandIgnoredTerminal { status: String },
    PickedUp { item_id: u64, name: String },
    Dropped { item_id: u64, name: String },
    InventoryFull { capacity: u64 },
    NoItemToPickUp,
    InvalidDropSlot { slot: u64 },
    LegacyHandled { token: String, note: String, fully_modeled: bool },
    ConfirmationRequired { token: String },
    EconomyUpdated { source: String, gold: i32, bank_gold: i32 },
    DialogueAdvanced { speaker: String, quest_state: String },
    QuestAdvanced { state: String, steps_completed: u64 },
    ProgressionUpdated { guild_rank: i32, priest_rank: i32, alignment: String },
    EndingResolved { ending: String, score: i32, high_score_eligible: bool },
    ActionPointsSpent { cost: u64, budget_per_turn: u64, total_spent: u64 },
    StatusTick { effect_id: String, magnitude: i32, remaining_turns: u64 },
    StatusExpired { effect_id: String },
    TurnAdvanced { turn: u64, minutes: u64 },
}

/// The stable snake-case name of an event's kind.
pub open spec fn spec_event_kind(e: GameEvent) -> Seq<char> {
    match e {
        GameEvent::Waited => "waited"@,
        GameEvent::Moved { .. } => "moved"@,
        GameEvent::MoveBlocked { .. } => "move_blocked"@,
        GameEvent::AttackMissed { .. } => "attack_missed"@,
        GameEvent::Attacked { .. } => "attacked"@,
        GameEvent::MonsterMoved { .. } => "monster_moved"@,
        GameEvent::MonsterAttacked { .. } => "monster_attacked"@,
        GameEvent::MonsterDefeated { .. } => "monster_defeated"@,
        GameEvent::PlayerDefeated => "player_defeated"@,
        GameEvent::VictoryAchieved => "victory_achieved"@,
        GameEvent::CommandIgnoredTerminal { .. } => "command_ignored_terminal"@,
        GameEvent::PickedUp { .. } => "picked_up"@,
        GameEvent::Dropped { .. } => "dropped"@,
        GameEvent::InventoryFull { .. } => "inventory_full"@,
        GameEvent::NoItemToPickUp => "no_item_to_pick_up"@,
        GameEvent::InvalidDropSlot { .. } => "invalid_drop_slot"@,
        GameEvent::LegacyHandled { .. } => "legacy_handled"@,
        GameEvent::ConfirmationRequired { .. } => "confirmation_required"@,
        GameEvent::EconomyUpdated { .. } => "economy_updated"@,
        GameEvent::DialogueAdvanced { .. } => "dialogue_advanced"@,
        GameEvent::QuestAdvanced { .. } => "quest_advanced"@,
        GameEvent::ProgressionUpdated { .. } => "progression_updated"@,
        GameEvent::EndingResolved { .. } => "ending_resolved"@,
        GameEvent::ActionPointsSpent { .. } => "action_points_spent"@,
        GameEvent::StatusTick { .. } => "status_tick"@,
        GameEvent::StatusExpired { .. } => "status_expired"@,
        GameEvent::TurnAdvanced { .. } => "turn_advanced"@,
    }
}

pub fn event_kind(event: &GameEvent) -> (r: &'static str)
    ensures
        r@ == spec_event_kind(*event),
{
    match event {
        GameEvent::Waited => "waited",
        GameEvent::Moved { .. } => "moved",
        GameEvent::MoveBlocked { .. } => "move_blocked",
        GameEvent::AttackMissed { .. } => "attack_missed",
        GameEvent::Attacked { .. } => "attacked",
        GameEvent::MonsterMoved { .. } => "monster_moved",
        GameEvent::MonsterAttacked { .. } => "monster_attacked",
        GameEvent::MonsterDefeated { .. } => "monster_defeated",
        GameEvent::PlayerDefeated => "player_defeated",
        GameEvent::VictoryAchieved => "victory_achieved",
        GameEvent::CommandIgnoredTerminal { .. } => "command_ignored_terminal",
        GameEvent::PickedUp { .. } => "picked_up",
        GameEvent::Dropped { .. } => "dropped",
        GameEvent::InventoryFull { .. } => "inventory_full",
        GameEvent::NoItemToPickUp => "no_item_to_pick_up",
        GameEvent::InvalidDropSlot { .. } => "invalid_drop_slot",
        GameEvent::LegacyHandled { .. } => "legacy_handled",
        GameEvent::ConfirmationRequired { .. } => "confirmation_required",
        GameEvent::EconomyUpdated { .. } => "economy_updated",
        GameEvent::DialogueAdvanced { .. } => "dialogue_advanced",
        GameEvent::QuestAdvanced { .. } => "quest_advanced",
        GameEvent::ProgressionUpdated { .. } => "progression_updated",
        GameEvent::EndingResolved { .. } => "ending_resolved",
        GameEvent::ActionPointsSpent { .. } => "action_points_spent",
        GameEvent::StatusTick { .. } => "status_tick",
        GameEvent::StatusExpired { .. } => "status_expired",
        GameEvent::TurnAdvanced { .. } => "turn_advanced",
    }
}

/// `#` and a number, as monsters and items are named in the log.
pub open spec fn spec_hash_id(id: u64) -> Seq<char> {
    "#"@ + spec_dec(id as nat)
}

/// The log line of an event.
pub open spec fn spec_format_event(e: GameEvent) -> Seq<char> {
    match e {
        GameEvent::Waited => "waited"@,
        GameEvent::Moved { from, to } => "moved: "@ + spec_point(from) + " -> "@ + spec_point(to),
        GameEvent::MoveBlocked { target } => "blocked: "@ + spec_point(target),
        GameEvent::AttackMissed { target } => "missed: "@ + spec_point(target),
        GameEvent::Attacked { monster_id, damage, remaining_hp } => "hit monster"@ + spec_hash_id(monster_id)
            + " for "@ + spec_int(damage as int) + " (hp "@ + spec_int(remaining_hp as int) + ")"@,
        GameEvent::MonsterMoved { monster_id, from, to } => "monster"@ + spec_hash_id(monster_id) + " moved "@
            + spec_point(from) + " -> "@ + spec_point(to),
        GameEvent::MonsterAttacked { monster_id, damage, remaining_hp } => "monster"@ + spec_hash_id(monster_id)
            + " hit you for "@ + spec_int(damage as int) + " (hp "@ + spec_int(remaining_hp as int) + ")"@,
        GameEvent::MonsterDefeated { monster_id } => "monster"@ + spec_hash_id(monster_id) + " defeated"@,
        GameEvent::PlayerDefeated => "you are defeated"@,
        GameEvent::VictoryAchieved => "victory achieved"@,
        GameEvent::CommandIgnoredTerminal { status } => "command ignored ("@ + status@ + ")"@,
        GameEvent::PickedUp { item_id, name } => "picked "@ + name@ + spec_hash_id(item_id),
        GameEvent::Dropped { item_id, name } => "dropped "@ + name@ + spec_hash_id(item_id),
        GameEvent::InventoryFull { capacity } => "inventory full ("@ + spec_dec(capacity as nat) + ")"@,
        GameEvent::NoItemToPickUp => "no item to pick up"@,
        GameEvent::InvalidDropSlot { slot } => "invalid drop slot: "@ + spec_dec(slot as nat),
        GameEvent::LegacyHandled { token, note, .. } => "legacy `"@ + token@ + "`: "@ + note@,
        GameEvent::ConfirmationRequired { token } => "confirmation required for `"@ + token@ + "`"@,
        GameEvent::EconomyUpdated { source, gold, bank_gold } => "economy `"@ + source@ + "` gold="@
            + spec_int(gold as int) + " bank="@ + spec_int(bank_gold as int),
        GameEvent::DialogueAdvanced { speaker, quest_state } => "dialogue `"@ + speaker@ + "` -> quest "@
            + quest_state@,
        GameEvent::QuestAdvanced { state, steps_completed } => "quest -> "@ + state@ + " (steps "@
            + spec_dec(steps_completed as nat) + ")"@,
        GameEvent::ProgressionUpdated { guild_rank, priest_rank, alignment } => "progression g"@
            + spec_int(guild_rank as int) + "/p"@ + spec_int(priest_rank as int) + " "@ + alignment@,
        GameEvent::EndingResolved { ending, score, high_score_eligible } => "ending "@ + ending@ + " score="@
            + spec_int(score as int) + " eligible="@ + spec_bool_text(high_score_eligible),
        GameEvent::ActionPointsSpent { cost, budget_per_turn, total_spent } => "ap +"@ + spec_dec(cost as nat)
            + "/"@ + spec_dec(budget_per_turn as nat) + " total="@ + spec_dec(total_spent as nat),
        GameEvent::StatusTick { effect_id, magnitude, remaining_turns } => "status `"@ + effect_id@ + "` tick "@
            + spec_int(magnitude as int) + " (remaining "@ + spec_dec(remaining_turns as nat) + ")"@,
        GameEvent::StatusExpired { effect_id } => "status `"@ + effect_id@ + "` expired"@,
        GameEvent::TurnAdvanced { turn, minutes } => "turn advanced: "@ + spec_dec(turn as nat) + " ("@
            + spec_dec(minutes as nat) + "m)"@,
    }
}

fn push_hash_id(out: &mut Vec<char>, id: u64)
    ensures
        final(out)@ == old(out)@ + spec_hash_id(id),
{
    extend_str(out, "#");
    push_dec(out, id);
}

fn push_text(out: &mut Vec<char>, s: &String)
    ensures
        final(out)@ == old(out)@ + s@,
{
    extend_str(out, s.as_str());
}

pub fn format_event(event: &GameEvent) -> (r: String)
    ensures
        r@ == spec_format_event(*event),
{
    let mut o: Vec<char> = Vec::new();
    match event {
        GameEvent::Waited => extend_str(&mut o, "waited"),
        GameEvent::Moved { from, to } => {
            extend_str(&mut o, "moved: ");
            push_point(&mut o, *from);
            extend_str(&mut o, " -> ");
            push_point(&mut o, *to);
        },
        GameEvent::MoveBlocked { target } => {
            extend_str(&mut o, "blocked: ");
            push_point(&mut o, *target);
        },
        GameEvent::AttackMissed { target } => {
            extend_str(&mut o, "missed: ");
            push_point(&mut o, *target);
        },
        GameEvent::Attacked { monster_id, damage, remaining_hp } => {
            extend_str(&mut o, "hit monster");
            push_hash_id(&mut o, *monster_id);
            extend_str(&mut o, " for ");
            push_int(&mut o, *damage as i64);
            extend_str(&mut o, " (hp ");
            push_int(&mut o, *remaining_hp as i64);
            extend_str(&mut o, ")");
        },
        GameEvent::MonsterMoved { monster_id, from, to } => {
            extend_str(&mut o, "monster");
            push_hash_id(&mut o, *monster_id);
            extend_str(&mut o, " moved ");
            push_point(&mut o, *from);
            extend_str(&mut o, " -> ");
            push_point(&mut o, *to);
        },
        GameEvent::MonsterAttacked { monster_id, damage, remaining_hp } => {
            extend_str(&mut o, "monster");
            push_hash_id(&mut o, *monster_id);
            extend_str(&mut o, " hit you for ");
            push_int(&mut o, *damage as i64);
            extend_str(&mut o, " (hp ");
            push_int(&mut o, *remaining_hp as i64);
            extend_str(&mut o, ")");
        },
        GameEvent::MonsterDefeated { monster_id } => {
            extend_str(&mut o, "monster");
            push_hash_id(&mut o, *monster_id);
            extend_str(&mut o, " defeated");
        },
        GameEvent::PlayerDefeated => extend_str(&mut o, "you are defeated"),
        GameEvent::VictoryAchieved => extend_str(&mut o, "victory achieved"),
        GameEvent::CommandIgnoredTerminal { status } => {
            extend_str(&mut o, "command ignored (");
            push_text(&mut o, status);
            extend_str(&mut o, ")");
        },
        GameEvent::PickedUp { item_id, name } => {
            extend_str(&mut o, "picked ");
            push_text(&mut o, name);
            push_hash_id(&mut o, *item_id);
        },
        GameEvent::Dropped { item_id, name } => {
            extend_str(&mut o, "dropped ");
            push_text(&mut o, name);
            push_hash_id(&mut o, *item_id);
        },
        GameEvent::InventoryFull { capacity } => {
            extend_str(&mut o, "inventory full (");
            push_dec(&mut o, *capacity);
            extend_str(&mut o, ")");
        },
        GameEvent::NoItemToPickUp => extend_str(&mut o, "no item to pick up"),
        GameEvent::InvalidDropSlot { slot } => {
            extend_str(&mut o, "invalid drop slot: ");
            push_dec(&mut o, *slot);
        },
        GameEvent::LegacyHandled { token, note, .. } => {
            extend_str(&mut o, "legacy `");
            push_text(&mut o, token);
            extend_str(&mut o, "`: ");
            push_text(&mut o, note);
        },
        GameEvent::ConfirmationRequired { token } => {
            extend_str(&mut o, "confirmation required for `");
            push_text(&mut o, token);
            extend_str(&mut o, "`");
        },
        GameEvent::EconomyUpdated { source, gold, bank_gold } => {
            extend_str(&mut o, "economy `");
            push_text(&mut o, source);
            extend_str(&mut o, "` gold=");
            push_int(&mut o, *gold as i64);
            extend_str(&mut o, " bank=");
            push_int(&mut o, *bank_gold as i64);
        },
        GameEvent::DialogueAdvanced { speaker, quest_state } => {
            extend_str(&mut o, "dialogue `");
            push_text(&mut o, speaker);
            extend_str(&mut o, "` -> quest ");
            push_text(&mut o, quest_state);
        },
        GameEvent::QuestAdvanced { state, steps_completed } => {
            extend_str(&mut o, "quest -> ");
            push_text(&mut o, state);
            extend_str(&mut o, " (steps ");
            push_dec(&mut o, *steps_completed);
            extend_str(&mut o, ")");
        },
        GameEvent::ProgressionUpdated { guild_rank, priest_rank, alignment } => {
            extend_str(&mut o, "progression g");
            push_int(&mut o, *guild_rank as i64);
            extend_str(&mut o, "/p");
            push_int(&mut o, *priest_rank as i64);
            extend_str(&mut o, " ");
            push_text(&mut o, alignment);
        },
        GameEvent::EndingResolved { ending, score, high_score_eligible } => {
            extend_str(&mut o, "ending ");
            push_text(&mut o, ending);
            extend_str(&mut o, " score=");
            push_int(&mut o, *score as i64);
            extend_str(&mut o, " eligible=");
            push_bool(&mut o, *high_score_eligible);
        },
        GameEvent::ActionPointsSpent { cost, budget_per_turn, total_spent } => {
            extend_str(&mut o, "ap +");
            push_dec(&mut o, *cost);
            extend_str(&mut o, "/");
            push_dec(&mut o, *budget_per_turn);
            extend_str(&mut o, " total=");
            push_dec(&mut o, *total_spent);
        },
        GameEvent::StatusTick { effect_id, magnitude, remaining_turns } => {
            extend_str(&mut o, "status `");
            push_text(&mut o, effect_id);
            extend_str(&mut o, "` tick ");
            push_int(&mut o, *magnitude as i64);
            extend_str(&mut o, " (remaining ");
            push_dec(&mut o, *remaining_turns);
            extend_str(&mut o, ")");
        },
        GameEvent::StatusExpired { effect_id } => {
            extend_str(&mut o, "status `");
            push_text(&mut o, effect_id);
            extend_str(&mut o, "` expired");
        },
        GameEvent::TurnAdvanced { turn, minutes } => {
            extend_str(&mut o, "turn advanced: ");
            push_dec(&mut o, *turn);
            extend_str(&mut o, " (");
            push_dec(&mut o, *minutes);
            extend_str(&mut o, "m)");
        },
    }
    string_of(&o)
}

/// An attack landed or a monster fell.
pub open spec fn spec_is_attack(e: GameEvent) -> bool {
    e is Attacked || e is MonsterDefeated
}

/// Some event of `events` is an attack that landed or a monster that fell.
pub open spec fn spec_event_attacked(events: Seq<GameEvent>) -> bool {
    exists|i: int| 0 <= i < events.len() && spec_is_attack(#[trigger] events[i])
}

pub fn event_attacked(events: &Vec<GameEvent>) -> (r: bool)
    ensures
        r == spec_event_attacked(events@),
{
    let mut i: usize = 0;
    while i < events.len()
        invariant
            i <= events.len(),
            forall|j: int| 0 <= j < i ==> !spec_is_attack(#[trigger] events@[j]),
        decreases events.len() - i,
    {
        match &events[i] {
            GameEvent::Attacked { .. } | GameEvent::MonsterDefeated { .. } => {
                return true;
            },
            _ => {},
        }
        i = i + 1;
    }
    false
}

/// Some event of `events` is a monster's attack on the player.
pub open spec fn spec_monster_attacked(events: Seq<GameEvent>) -> bool {
    exists|i: int| 0 <= i < events.len() && (#[trigger] events[i]) is MonsterAttacked
}

pub fn monster_attacked(events: &Vec<GameEvent>) -> (r: bool)
    ensures
        r == spec_monster_attacked(events@),
{
    let mut i: usize = 0;
    while i < events.len()
        invariant
            i <= events.len(),
            forall|j: int| 0 <= j < i ==> !((#[trigger] events@[j]) is MonsterAttacked),
        decreases events.len() - i,
    {
        if let GameEvent::MonsterAttacked { .. } = &events[i] {
            return true;
        }
        i = i + 1;
    }
    false
}

} // verus!
