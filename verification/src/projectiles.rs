//! The checks of the projectile parity matrix and smoke: what each engine
//! run observed, judged and written up.
//!
//! The engine runs the scenarios; each check takes what its run observed:
//! the clock before and after a step, the step's events, hit points and
//! the weapon's load state.
use vstd::prelude::*;

use crate::events::{event_attacked, monster_attacked, spec_event_attacked, spec_monster_attacked, GameEvent};
use crate::probes::check;
use crate::recovery::{check_views, CheckView};
use crate::refresh::MatrixCheck;
use crate::reports::{push_bool, spec_bool_text};
use crate::text::{chars_of, contains_str, extend_str, push_dec, push_int, spec_contains, spec_dec, spec_int};

verus! {

/// The game clock: turns taken and minutes passed.
#[derive(Debug, Clone, Copy)]
pub struct ClockReading {
    pub turn: u64,
    pub minutes: u64,
}

// ---------------------------------------------------------------------------
// Matrix
// ---------------------------------------------------------------------------

/// `f` with arrows in the pack opens the item prompt, spends no time and
/// attacks nothing.
pub open spec fn spec_fire_prompt_check(pending_item_prompt: bool, minutes: u64, events: Seq<GameEvent>) -> CheckView {
    let attacked = spec_event_attacked(events);
    CheckView {
        id: "fire_command_opens_item_prompt"@,
        passed: pending_item_prompt && minutes == 0 && !attacked,
        details: "pending_item_prompt="@ + spec_bool_text(pending_item_prompt) + " minutes="@ + spec_dec(
            minutes as nat,
        ) + " attacked_events="@ + spec_bool_text(attacked),
    }
}

pub fn fire_prompt_check(pending_item_prompt: bool, minutes: u64, events: &Vec<GameEvent>) -> (r: MatrixCheck)
    ensures
        check_views(seq![r])[0] == spec_fire_prompt_check(pending_item_prompt, minutes, events@),
{
    let attacked = event_attacked(events);
    let mut d = chars_of("pending_item_prompt=");
    push_bool(&mut d, pending_item_prompt);
    extend_str(&mut d, " minutes=");
    push_dec(&mut d, minutes);
    extend_str(&mut d, " attacked_events=");
    push_bool(&mut d, attacked);
    check("fire_command_opens_item_prompt", pending_item_prompt && minutes == 0 && !attacked, d)
}

/// Choosing magic missile opens the targeting modal without advancing the
/// clock or attacking.
pub open spec fn spec_targeting_modal_check(
    pending_targeting: bool,
    before: ClockReading,
    after: ClockReading,
    events: Seq<GameEvent>,
) -> CheckView {
    let attacked = spec_event_attacked(events);
    CheckView {
        id: "magic_missile_requires_targeting_modal"@,
        passed: pending_targeting && after.turn == before.turn && after.minutes == before.minutes && !attacked,
        details: "pending_targeting="@ + spec_bool_text(pending_targeting) + " turn="@ + spec_dec(after.turn as nat)
            + " minutes="@ + spec_dec(after.minutes as nat) + " attacked="@ + spec_bool_text(attacked),
    }
}

pub fn targeting_modal_check(
    pending_targeting: bool,
    before: ClockReading,
    after: ClockReading,
    events: &Vec<GameEvent>,
) -> (r: MatrixCheck)
    ensures
        check_views(seq![r])[0] == spec_targeting_modal_check(pending_targeting, before, after, events@),
{
    let attacked = event_attacked(events);
    let mut d = chars_of("pending_targeting=");
    push_bool(&mut d, pending_targeting);
    extend_str(&mut d, " turn=");
    push_dec(&mut d, after.turn);
    extend_str(&mut d, " minutes=");
    push_dec(&mut d, after.minutes);
    extend_str(&mut d, " attacked=");
    push_bool(&mut d, attacked);
    let passed = pending_targeting && after.turn == before.turn && after.minutes == before.minutes && !attacked;
    check("magic_missile_requires_targeting_modal", passed, d)
}

/// Cancelling the targeting modal closes it without advancing the clock.
pub open spec fn spec_targeting_cancel_check(pending_targeting: bool, before: ClockReading, after: ClockReading) -> CheckView {
    CheckView {
        id: "targeting_cancel_is_non_advancing"@,
        passed: !pending_targeting && after.turn == before.turn && after.minutes == before.minutes,
        details: "pending_targeting="@ + spec_bool_text(pending_targeting) + " turn="@ + spec_dec(after.turn as nat)
            + " minutes="@ + spec_dec(after.minutes as nat),
    }
}

pub fn targeting_cancel_check(pending_targeting: bool, before: ClockReading, after: ClockReading) -> (r: MatrixCheck)
    ensures
        check_views(seq![r])[0] == spec_targeting_cancel_check(pending_targeting, before, after),
{
    let mut d = chars_of("pending_targeting=");
    push_bool(&mut d, pending_targeting);
    extend_str(&mut d, " turn=");
    push_dec(&mut d, after.turn);
    extend_str(&mut d, " minutes=");
    push_dec(&mut d, after.minutes);
    let passed = !pending_targeting && after.turn == before.turn && after.minutes == before.minutes;
    check("targeting_cancel_is_non_advancing", passed, d)
}

/// A missile cast through a portcullis attacks nothing and leaves the
/// target's hit points as they were.
pub open spec fn spec_los_block_check(id: Seq<char>, events: Seq<GameEvent>, hp_before: i32, hp_after: i32) -> CheckView {
    let attacked = spec_event_attacked(events);
    CheckView {
        id,
        passed: !attacked && hp_after == hp_before,
        details: "attacked="@ + spec_bool_text(attacked) + " hp_before="@ + spec_int(hp_before as int)
            + " hp_after="@ + spec_int(hp_after as int),
    }
}

/// The matrix writes this check as `projectile_los_blocks_on_portcullis`,
/// the smoke as `projectile_los_block_smoke`.
pub fn los_block_check(id: &str, events: &Vec<GameEvent>, hp_before: i32, hp_after: i32) -> (r: MatrixCheck)
    ensures
        check_views(seq![r])[0] == spec_los_block_check(id@, events@, hp_before, hp_after),
{
    let attacked = event_attacked(events);
    let mut d = chars_of("attacked=");
    push_bool(&mut d, attacked);
    extend_str(&mut d, " hp_before=");
    push_int(&mut d, hp_before as i64);
    extend_str(&mut d, " hp_after=");
    push_int(&mut d, hp_after as i64);
    check(id, !attacked && hp_after == hp_before, d)
}

/// Some line of the log mentions `blocked`.
pub open spec fn spec_log_mentions_blocked(log: Seq<String>) -> bool {
    exists|i: int| 0 <= i < log.len() && spec_contains((#[trigger] log[i])@, "blocked"@)
}

fn log_mentions_blocked(log: &Vec<String>) -> (r: bool)
    ensures
        r == spec_log_mentions_blocked(log@),
{
    let mut i: usize = 0;
    while i < log.len()
        invariant
            i <= log.len(),
            forall|j: int| 0 <= j < i ==> !spec_contains((#[trigger] log@[j])@, "blocked"@),
        decreases log.len() - i,
    {
        if contains_str(&chars_of(log[i].as_str()), "blocked") {
            return true;
        }
        i = i + 1;
    }
    false
}

/// A caster's bolt stopped by a portcullis leaves the player's hit points
/// as they were, lands no monster attack and is logged as blocked.
pub open spec fn spec_monster_projectile_check(
    hp_before: i32,
    hp_after: i32,
    events: Seq<GameEvent>,
    log: Seq<String>,
) -> CheckView {
    let attacked = spec_monster_attacked(events);
    let blocked = spec_log_mentions_blocked(log);
    CheckView {
        id: "monster_projectile_los_uses_projectile_resolver"@,
        passed: hp_after == hp_before && !attacked && blocked,
        details: "hp_before="@ + spec_int(hp_before as int) + " hp_after="@ + spec_int(hp_after as int)
            + " attacked_events="@ + spec_bool_text(attacked) + " blocked_log="@ + spec_bool_text(blocked),
    }
}

pub fn monster_projectile_check(hp_before: i32, hp_after: i32, events: &Vec<GameEvent>, log: &Vec<String>) -> (r: MatrixCheck)
    ensures
        check_views(seq![r])[0] == spec_monster_projectile_check(hp_before, hp_after, events@, log@),
{
    let attacked = monster_attacked(events);
    let blocked = log_mentions_blocked(log);
    let mut d = chars_of("hp_before=");
    push_int(&mut d, hp_before as i64);
    extend_str(&mut d, " hp_after=");
    push_int(&mut d, hp_after as i64);
    extend_str(&mut d, " attacked_events=");
    push_bool(&mut d, attacked);
    extend_str(&mut d, " blocked_log=");
    push_bool(&mut d, blocked);
    check("monster_projectile_los_uses_projectile_resolver", hp_after == hp_before && !attacked && blocked, d)
}

/// Choosing bolts for an unloaded crossbow loads it, opens no targeting
/// and takes at least five minutes.
pub open spec fn spec_crossbow_load_check(crossbow_aux: i32, loaded: i32, pending_targeting: bool, minutes: u64) -> CheckView {
    CheckView {
        id: "crossbow_bolt_selection_loads_when_unloaded"@,
        passed: crossbow_aux == loaded && !pending_targeting && minutes >= 5,
        details: "crossbow_aux="@ + spec_int(crossbow_aux as int) + " loaded="@ + spec_int(loaded as int)
            + " pending_targeting="@ + spec_bool_text(pending_targeting) + " minutes="@ + spec_dec(minutes as nat),
    }
}

pub fn crossbow_load_check(crossbow_aux: i32, loaded: i32, pending_targeting: bool, minutes: u64) -> (r: MatrixCheck)
    ensures
        check_views(seq![r])[0] == spec_crossbow_load_check(crossbow_aux, loaded, pending_targeting, minutes),
{
    let mut d = chars_of("crossbow_aux=");
    push_int(&mut d, crossbow_aux as i64);
    extend_str(&mut d, " loaded=");
    push_int(&mut d, loaded as i64);
    extend_str(&mut d, " pending_targeting=");
    push_bool(&mut d, pending_targeting);
    extend_str(&mut d, " minutes=");
    push_dec(&mut d, minutes);
    check(
        "crossbow_bolt_selection_loads_when_unloaded",
        crossbow_aux == loaded && !pending_targeting && minutes >= 5,
        d,
    )
}

/// One seeded shot of a loaded crossbow whose bolt selection opened the
/// targeting modal: the events of the shot and the weapon's load state
/// after it.
#[derive(Debug, Clone)]
pub struct BoltShot {
    pub seed: u64,
    pub events: Vec<GameEvent>,
    pub weapon_aux: i32,
}

pub open spec fn spec_shot_unloads(s: BoltShot, unloaded: i32) -> bool {
    spec_event_attacked(s.events@) && s.weapon_aux == unloaded
}

pub open spec fn spec_shot_details(s: BoltShot) -> Seq<char> {
    "seed="@ + spec_dec(s.seed as nat) + " attacked="@ + spec_bool_text(spec_event_attacked(s.events@))
        + " weapon_aux="@ + spec_int(s.weapon_aux as int)
}

/// The index of the first shot that hit and unloaded the weapon.
pub open spec fn spec_first_unloading(shots: Seq<BoltShot>, unloaded: i32) -> Option<int>
    decreases shots.len(),
{
    if shots.len() == 0 {
        None
    } else {
        match spec_first_unloading(shots.drop_last(), unloaded) {
            Some(i) => Some(i),
            None => if spec_shot_unloads(shots.last(), unloaded) {
                Some(shots.len() - 1)
            } else {
                None
            },
        }
    }
}

/// The shots are tried in order until one hits and unloads the crossbow;
/// the details are those of that shot, else of the last one tried, else
/// empty.
pub open spec fn spec_crossbow_unload_check(shots: Seq<BoltShot>, unloaded: i32) -> CheckView {
    let first = spec_first_unloading(shots, unloaded);
    CheckView {
        id: "loaded_crossbow_bolt_hit_unloads_weapon"@,
        passed: first is Some,
        details: match first {
            Some(i) => spec_shot_details(shots[i]),
            None => if shots.len() == 0 {
                Seq::empty()
            } else {
                spec_shot_details(shots.last())
            },
        },
    }
}

fn shot_details(s: &BoltShot) -> (d: Vec<char>)
    ensures
        d@ == spec_shot_details(*s),
{
    let mut d = chars_of("seed=");
    push_dec(&mut d, s.seed);
    extend_str(&mut d, " attacked=");
    push_bool(&mut d, event_attacked(&s.events));
    extend_str(&mut d, " weapon_aux=");
    push_int(&mut d, s.weapon_aux as i64);
    d
}

pub fn crossbow_unload_check(shots: &Vec<BoltShot>, unloaded: i32) -> (r: MatrixCheck)
    ensures
        check_views(seq![r])[0] == spec_crossbow_unload_check(shots@, unloaded),
{
    let mut i: usize = 0;
    while i < shots.len()
        invariant
            i <= shots.len(),
            spec_first_unloading(shots@.take(i as int), unloaded) is None,
        decreases shots.len() - i,
    {
        assert(shots@.take(i + 1).drop_last() == shots@.take(i as int));
        if event_attacked(&shots[i].events) && shots[i].weapon_aux == unloaded {
            assert(spec_first_unloading(shots@.take(i + 1), unloaded) == Some(i as int));
            proof {
                lemma_first_unloading_prefix(shots@, unloaded, i as int + 1);
            }
            return check("loaded_crossbow_bolt_hit_unloads_weapon", true, shot_details(&shots[i]));
        }
        i = i + 1;
    }
    assert(shots@.take(shots.len() as int) == shots@);
    if shots.len() == 0 {
        check("loaded_crossbow_bolt_hit_unloads_weapon", false, Vec::new())
    } else {
        check("loaded_crossbow_bolt_hit_unloads_weapon", false, shot_details(&shots[shots.len() - 1]))
    }
}

/// Once a prefix holds an unloading shot, the whole sequence has the same
/// first one.
proof fn lemma_first_unloading_prefix(shots: Seq<BoltShot>, unloaded: i32, k: int)
    requires
        0 <= k <= shots.len(),
        spec_first_unloading(shots.take(k), unloaded) is Some,
    ensures
        spec_first_unloading(shots, unloaded) == spec_first_unloading(shots.take(k), unloaded),
    decreases shots.len() - k,
{
    if k < shots.len() {
        assert(shots.take(k + 1).drop_last() == shots.take(k));
        lemma_first_unloading_prefix(shots, unloaded, k + 1);
    } else {
        assert(shots.take(k) == shots);
    }
}

/// Firing arrows at an adjacent target resolves the targeting: the shot
/// attacks or the modal is closed.
pub open spec fn spec_arrow_targeting_check(events: Seq<GameEvent>, pending_targeting: bool, minutes: u64) -> CheckView {
    let attacked = spec_event_attacked(events);
    CheckView {
        id: "arrow_fire_uses_targeting_resolution"@,
        passed: attacked || !pending_targeting,
        details: "attacked="@ + spec_bool_text(attacked) + " pending_targeting="@ + spec_bool_text(pending_targeting)
            + " minutes="@ + spec_dec(minutes as nat),
    }
}

pub fn arrow_targeting_check(events: &Vec<GameEvent>, pending_targeting: bool, minutes: u64) -> (r: MatrixCheck)
    ensures
        check_views(seq![r])[0] == spec_arrow_targeting_check(events@, pending_targeting, minutes),
{
    let attacked = event_attacked(events);
    let mut d = chars_of("attacked=");
    push_bool(&mut d, attacked);
    extend_str(&mut d, " pending_targeting=");
    push_bool(&mut d, pending_targeting);
    extend_str(&mut d, " minutes=");
    push_dec(&mut d, minutes);
    check("arrow_fire_uses_targeting_resolution", attacked || !pending_targeting, d)
}

// ---------------------------------------------------------------------------
// Smoke
// ---------------------------------------------------------------------------

/// Opening the fire prompt spends no time; committing the arrow shot takes
/// one turn and five minutes and closes the targeting.
pub open spec fn spec_arrow_fire_flow_check(
    before: ClockReading,
    open_minutes: u64,
    commit: ClockReading,
    commit_events: Seq<GameEvent>,
    pending_targeting: bool,
) -> CheckView {
    CheckView {
        id: "arrow_fire_flow"@,
        passed: open_minutes == before.minutes && commit.turn == before.turn + 1 && commit.minutes
            == before.minutes + 5 && !pending_targeting,
        details: "open_minutes="@ + spec_dec(open_minutes as nat) + " commit_turn="@ + spec_dec(commit.turn as nat)
            + " commit_minutes="@ + spec_dec(commit.minutes as nat) + " attacked="@ + spec_bool_text(
            spec_event_attacked(commit_events),
        ),
    }
}

/// `later` is exactly `step` past `earlier`.
fn advanced_by(earlier: u64, later: u64, step: u64) -> (r: bool)
    ensures
        r == (later == earlier + step),
{
    later >= earlier && later - earlier == step
}

pub fn arrow_fire_flow_check(
    before: ClockReading,
    open_minutes: u64,
    commit: ClockReading,
    commit_events: &Vec<GameEvent>,
    pending_targeting: bool,
) -> (r: MatrixCheck)
    ensures
        check_views(seq![r])[0] == spec_arrow_fire_flow_check(
            before,
            open_minutes,
            commit,
            commit_events@,
            pending_targeting,
        ),
{
    let mut d = chars_of("open_minutes=");
    push_dec(&mut d, open_minutes);
    extend_str(&mut d, " commit_turn=");
    push_dec(&mut d, commit.turn);
    extend_str(&mut d, " commit_minutes=");
    push_dec(&mut d, commit.minutes);
    extend_str(&mut d, " attacked=");
    push_bool(&mut d, event_attacked(commit_events));
    let passed = open_minutes == before.minutes && advanced_by(before.turn, commit.turn, 1) && advanced_by(
        before.minutes,
        commit.minutes,
        5,
    ) && !pending_targeting;
    check("arrow_fire_flow", passed, d)
}

/// Selecting magic missile leaves the clock alone; committing the cast
/// takes one turn and twenty minutes and closes the targeting.
pub open spec fn spec_spell_commit_check(
    before: ClockReading,
    select: ClockReading,
    commit: ClockReading,
    commit_events: Seq<GameEvent>,
    pending_targeting: bool,
) -> CheckView {
    CheckView {
        id: "magic_missile_target_then_commit"@,
        passed: select.turn == before.turn && select.minutes == before.minutes && commit.turn == before.turn + 1
            && commit.minutes == before.minutes + 20 && !pending_targeting,
        details: "select_turn="@ + spec_dec(select.turn as nat) + " select_minutes="@ + spec_dec(select.minutes as nat)
            + " commit_turn="@ + spec_dec(commit.turn as nat) + " commit_minutes="@ + spec_dec(commit.minutes as nat)
            + " attacked="@ + spec_bool_text(spec_event_attacked(commit_events)) + " pending_targeting="@
            + spec_bool_text(pending_targeting),
    }
}

pub fn spell_commit_check(
    before: ClockReading,
    select: ClockReading,
    commit: ClockReading,
    commit_events: &Vec<GameEvent>,
    pending_targeting: bool,
) -> (r: MatrixCheck)
    ensures
        check_views(seq![r])[0] == spec_spell_commit_check(before, select, commit, commit_events@, pending_targeting),
{
    let mut d = chars_of("select_turn=");
    push_dec(&mut d, select.turn);
    extend_str(&mut d, " select_minutes=");
    push_dec(&mut d, select.minutes);
    extend_str(&mut d, " commit_turn=");
    push_dec(&mut d, commit.turn);
    extend_str(&mut d, " commit_minutes=");
    push_dec(&mut d, commit.minutes);
    extend_str(&mut d, " attacked=");
    push_bool(&mut d, event_attacked(commit_events));
    extend_str(&mut d, " pending_targeting=");
    push_bool(&mut d, pending_targeting);
    let passed = select.turn == before.turn && select.minutes == before.minutes && advanced_by(
        before.turn,
        commit.turn,
        1,
    ) && advanced_by(before.minutes, commit.minutes, 20) && !pending_targeting;
    check("magic_missile_target_then_commit", passed, d)
}


/// The crossbow unload check passes exactly when some tried shot both hit
/// and left the weapon unloaded.
pub proof fn law_unload_check_passes_iff_some_shot_unloads(shots: Seq<BoltShot>, unloaded: i32)
    ensures
        spec_crossbow_unload_check(shots, unloaded).passed <==> exists|i: int|
            0 <= i < shots.len() && spec_shot_unloads(#[trigger] shots[i], unloaded),
    decreases shots.len(),
{
    if shots.len() > 0 {
        law_unload_check_passes_iff_some_shot_unloads(shots.drop_last(), unloaded);
        if spec_first_unloading(shots.drop_last(), unloaded) is Some {
            let i = choose|i: int| 0 <= i < shots.drop_last().len() && spec_shot_unloads(#[trigger] shots.drop_last()[i], unloaded);
            assert(shots[i] == shots.drop_last()[i]);
        } else {
            assert forall|i: int| 0 <= i < shots.len() - 1 implies !spec_shot_unloads(#[trigger] shots[i], unloaded) by {
                assert(shots[i] == shots.drop_last()[i]);
            }
        }
    }
}

} // verus!
