//! Replay fixtures and the regression dashboard: fixture metadata, the
//! comparison of a replay's final state with the fixture's expectations,
//! per-tag and per-family rollups, and the dashboard's Markdown rendering.
use vstd::prelude::*;

use crate::tally::{is_sorted_key_set, sorted_key_set};
use crate::reports::spec_bool_text;
use crate::text::{chars_eq, chars_of, clone_chars, extend, extend_str, join, push_dec, push_int, spec_dec, spec_int, spec_join, spec_trim, string_of, trim};

verus! {

broadcast use crate::views::group_view_lemmas;

/// A command of a replay script.
#[derive(Debug, Clone, PartialEq, Eq)]
pub enum ReplayCommand {
    Wait,
    Move { direction: ReplayDirection },
    Attack { direction: ReplayDirection },
    Pickup,
    Drop { slot: usize },
    Legacy { token: String },
}

#[derive(Debug, Clone, Copy, PartialEq, Eq, Structural)]
pub enum ReplayDirection {
    North,
    South,
    East,
    West,
}

/// The newest fixture contract version this replay runner understands.
pub const REPLAY_CONTRACT_VERSION: u16 = 1;

pub fn default_contract_version() -> (r: u16)
    ensures
        r == REPLAY_CONTRACT_VERSION,
{
    REPLAY_CONTRACT_VERSION
}

pub fn default_active() -> (r: bool)
    ensures
        r,
{
    true
}

pub fn default_source() -> (r: String)
    ensures
        r@ == "legacy_handcrafted"@,
{
    string_of(&chars_of("legacy_handcrafted"))
}

pub fn is_supported_contract_version(version: u16) -> (r: bool)
    ensures
        r == (version <= REPLAY_CONTRACT_VERSION),
{
    version <= REPLAY_CONTRACT_VERSION
}

/// The descriptive part of a replay fixture.
#[derive(Debug, Clone, PartialEq, Eq)]
pub struct FixtureMetadata {
    pub contract_version: u16,
    pub active: bool,
    pub source: String,
    pub name: String,
    pub family: String,
    pub tags: Vec<String>,
}

/// The views of a list of texts.
pub open spec fn string_views(v: Seq<String>) -> Seq<Seq<char>> {
    v.map_values(|s: String| s@)
}

/// Whether `t` is one of `tags`.
pub open spec fn spec_has_tag(tags: Seq<String>, t: Seq<char>) -> bool {
    exists|i: int| 0 <= i < tags.len() && #[trigger] tags[i]@ == t
}

pub fn has_tag(tags: &Vec<String>, tag: &Vec<char>) -> (r: bool)
    ensures
        r == spec_has_tag(tags@, tag@),
{
    let mut i: usize = 0;
    while i < tags.len()
        invariant
            i <= tags.len(),
            forall|k: int| 0 <= k < i ==> tags@[k]@ != tag@,
        decreases tags.len() - i,
    {
        let t = chars_of(tags[i].as_str());
        if chars_eq(&t, tag) {
            return true;
        }
        i = i + 1;
    }
    false
}

pub fn fixture_has_tag(fixture: &FixtureMetadata, tag: &str) -> (r: bool)
    ensures
        r == spec_has_tag(fixture.tags@, tag@),
{
    has_tag(&fixture.tags, &chars_of(tag))
}

/// The non-blank texts of `v`, in order.
pub open spec fn spec_non_blank(v: Seq<Seq<char>>) -> Seq<Seq<char>>
    decreases v.len(),
{
    if v.len() == 0 {
        Seq::empty()
    } else if spec_trim(v.last()).len() == 0 {
        spec_non_blank(v.drop_last())
    } else {
        spec_non_blank(v.drop_last()).push(v.last())
    }
}

/// Metadata after normalisation: blank tags dropped, tags sorted with
/// duplicates removed, and blank family and source replaced by defaults.
pub open spec fn is_normalized_metadata(after: FixtureMetadata, before: FixtureMetadata) -> bool {
    &&& after.contract_version == before.contract_version
    &&& after.active == before.active
    &&& after.name == before.name
    &&& is_sorted_key_set(string_views(after.tags@), spec_non_blank(string_views(before.tags@)))
    &&& after.family@ == if spec_trim(before.family@).len() == 0 {
        "unclassified"@
    } else {
        before.family@
    }
    &&& after.source@ == if spec_trim(before.source@).len() == 0 {
        "legacy_handcrafted"@
    } else {
        before.source@
    }
}

pub fn normalize_fixture_metadata(fixture: &mut FixtureMetadata)
    ensures
        is_normalized_metadata(*final(fixture), *old(fixture)),
{
    let ghost tags0 = string_views(fixture.tags@);
    let mut kept: Vec<Vec<char>> = Vec::new();
    let mut i: usize = 0;
    while i < fixture.tags.len()
        invariant
            i <= fixture.tags.len(),
            tags0 == string_views(fixture.tags@),
            kept.deep_view() == spec_non_blank(tags0.take(i as int)),
        decreases fixture.tags.len() - i,
    {
        assert(tags0.take(i + 1).drop_last() == tags0.take(i as int));
        let t = chars_of(fixture.tags[i].as_str());
        assert(tags0[i as int] == t@);
        if trim(&t).len() > 0 {
            let ghost before = kept.deep_view();
            kept.push(t);
            assert(kept.deep_view() =~= before.push(tags0[i as int]));
        }
        i = i + 1;
    }
    assert(tags0.take(fixture.tags.len() as int) == tags0);
    let set = sorted_key_set(&kept);
    let mut tags: Vec<String> = Vec::new();
    let mut k: usize = 0;
    while k < set.len()
        invariant
            k <= set.len(),
            string_views(tags@) == set.deep_view().take(k as int),
        decreases set.len() - k,
    {
        let ghost before = string_views(tags@);
        tags.push(string_of(&set[k]));
        assert(set.deep_view()[k as int] == set[k as int]@);
        assert(string_views(tags@) =~= before.push(set.deep_view()[k as int]));
        assert(set.deep_view().take(k + 1) =~= set.deep_view().take(k as int).push(set.deep_view()[k as int]));
        k = k + 1;
    }
    assert(set.deep_view().take(set.len() as int) == set.deep_view());
    fixture.tags = tags;
    let family = chars_of(fixture.family.as_str());
    if trim(&family).len() == 0 {
        fixture.family = string_of(&chars_of("unclassified"));
    }
    let source = chars_of(fixture.source.as_str());
    if trim(&source).len() == 0 {
        fixture.source = default_source();
    }
}

// ---------------------------------------------------------------------------
// Command text
// ---------------------------------------------------------------------------

/// The `Debug` name of a direction.
pub open spec fn spec_direction_name(d: ReplayDirection) -> Seq<char> {
    match d {
        ReplayDirection::North => "North"@,
        ReplayDirection::South => "South"@,
        ReplayDirection::East => "East"@,
        ReplayDirection::West => "West"@,
    }
}

pub fn direction_name(d: ReplayDirection) -> (r: &'static str)
    ensures
        r@ == spec_direction_name(d),
{
    match d {
        ReplayDirection::North => "North",
        ReplayDirection::South => "South",
        ReplayDirection::East => "East",
        ReplayDirection::West => "West",
    }
}

/// The trace text of a replay command.
pub open spec fn spec_command_text(c: ReplayCommand) -> Seq<char> {
    match c {
        ReplayCommand::Wait => "wait"@,
        ReplayCommand::Move { direction } => "move:"@ + spec_direction_name(direction),
        ReplayCommand::Attack { direction } => "attack:"@ + spec_direction_name(direction),
        ReplayCommand::Pickup => "pickup"@,
        ReplayCommand::Drop { slot } => "drop:"@ + spec_dec(slot as nat),
        ReplayCommand::Legacy { token } => "legacy:"@ + token@,
    }
}

pub fn command_text(command: &ReplayCommand) -> (r: String)
    ensures
        r@ == spec_command_text(*command),
{
    let mut out: Vec<char> = Vec::new();
    match command {
        ReplayCommand::Wait => extend_str(&mut out, "wait"),
        ReplayCommand::Move { direction } => {
            extend_str(&mut out, "move:");
            extend_str(&mut out, direction_name(*direction));
        },
        ReplayCommand::Attack { direction } => {
            extend_str(&mut out, "attack:");
            extend_str(&mut out, direction_name(*direction));
        },
        ReplayCommand::Pickup => extend_str(&mut out, "pickup"),
        ReplayCommand::Drop { slot } => {
            extend_str(&mut out, "drop:");
            push_dec(&mut out, *slot as u64);
        },
        ReplayCommand::Legacy { token } => {
            extend_str(&mut out, "legacy:");
            extend_str(&mut out, token.as_str());
        },
    }
    string_of(&out)
}

// ---------------------------------------------------------------------------
// Comparing a replay's final state with the fixture's expectations
// ---------------------------------------------------------------------------

/// A map position.
#[derive(Debug, Clone, Copy, PartialEq, Eq, Structural)]
pub struct GridPosition {
    pub x: i32,
    pub y: i32,
}

/// What a fixture expects of the final state.  Enumerated values (world
/// mode, alignment, quest state, ending) are given by their `Debug` names.
#[derive(Debug, Clone, PartialEq, Eq)]
pub struct ReplayExpectation {
    pub turn: u64,
    pub minutes: u64,
    pub player_position: GridPosition,
    pub player_hp: i32,
    pub monsters_alive: usize,
    pub inventory_count: usize,
    pub ground_item_count: usize,
    pub required_event_kinds: Vec<String>,
    pub world_mode: Option<String>,
    pub guild_rank: Option<u8>,
    pub priest_rank: Option<u8>,
    pub alignment: Option<String>,
    pub quest_state: Option<String>,
    pub total_winner_unlocked: Option<bool>,
    pub gold: Option<i32>,
    pub bank_gold: Option<i32>,
    pub food: Option<i32>,
    pub known_site_count: Option<usize>,
    pub ending: Option<String>,
    pub high_score_eligible: Option<bool>,
}

/// The final state of a replay, as the values the fixture is checked
/// against, and the kinds of the events seen on the way.
#[derive(Debug, Clone, PartialEq, Eq)]
pub struct ReplayObservation {
    pub turn: u64,
    pub minutes: u64,
    pub player_position: GridPosition,
    pub player_hp: i32,
    pub monsters_alive: usize,
    pub inventory_count: usize,
    pub ground_item_count: usize,
    pub world_mode: String,
    pub guild_rank: u8,
    pub priest_rank: u8,
    pub alignment: String,
    pub quest_state: String,
    pub total_winner_unlocked: bool,
    pub gold: i32,
    pub bank_gold: i32,
    pub food: i32,
    pub known_site_count: usize,
    pub ending: String,
    pub high_score_eligible: bool,
    pub seen_event_kinds: Vec<String>,
}

/// The outcome of one replay scenario.
#[derive(Debug, Clone, PartialEq, Eq)]
pub struct ReplayScenarioResult {
    pub name: String,
    pub family: String,
    pub tags: Vec<String>,
    pub source: String,
    pub active: bool,
    pub deprecated: bool,
    pub schema_mismatch: bool,
    pub passed: bool,
    pub checks: Vec<String>,
    pub final_turn: u64,
    pub final_minutes: u64,
}

/// `"{label} mismatch: expected {e}, got {g}"`.
pub open spec fn spec_mismatch(label: Seq<char>, e: Seq<char>, g: Seq<char>) -> Seq<char> {
    label + " mismatch: expected "@ + e + ", got "@ + g
}

/// One message when the numbers differ.
pub open spec fn spec_int_check(label: Seq<char>, e: int, g: int) -> Seq<Seq<char>> {
    if e != g {
        seq![spec_mismatch(label, spec_int(e), spec_int(g))]
    } else {
        Seq::empty()
    }
}

/// One message when an expected number is given and differs.
pub open spec fn spec_opt_int_check(label: Seq<char>, e: Option<int>, g: int) -> Seq<Seq<char>> {
    match e {
        Some(v) => spec_int_check(label, v, g),
        None => Seq::empty(),
    }
}

/// One message when an expected name is given and differs.
pub open spec fn spec_opt_text_check(label: Seq<char>, e: Option<String>, g: Seq<char>) -> Seq<Seq<char>> {
    match e {
        Some(v) => if v@ != g {
            seq![spec_mismatch(label, v@, g)]
        } else {
            Seq::empty()
        },
        None => Seq::empty(),
    }
}

/// One message when an expected flag is given and differs.
pub open spec fn spec_opt_bool_check(label: Seq<char>, e: Option<bool>, g: bool) -> Seq<Seq<char>> {
    match e {
        Some(v) => if v != g {
            seq![spec_mismatch(label, spec_bool_text(v), spec_bool_text(g))]
        } else {
            Seq::empty()
        },
        None => Seq::empty(),
    }
}

pub open spec fn opt_int_u8(o: Option<u8>) -> Option<int> {
    match o {
        Some(v) => Some(v as int),
        None => None,
    }
}

pub open spec fn opt_int_i32(o: Option<i32>) -> Option<int> {
    match o {
        Some(v) => Some(v as int),
        None => None,
    }
}

pub open spec fn opt_int_usize(o: Option<usize>) -> Option<int> {
    match o {
        Some(v) => Some(v as int),
        None => None,
    }
}

/// `"({x}, {y})"`.
pub open spec fn spec_position_text(p: GridPosition) -> Seq<char> {
    "("@ + spec_int(p.x as int) + ", "@ + spec_int(p.y as int) + ")"@
}

/// Messages for the required event kinds that were not seen.
pub open spec fn spec_missing_events(required: Seq<String>, seen: Seq<String>) -> Seq<Seq<char>>
    decreases required.len(),
{
    if required.len() == 0 {
        Seq::empty()
    } else {
        let prev = spec_missing_events(required.drop_last(), seen);
        if spec_has_tag(seen, required.last()@) {
            prev
        } else {
            prev.push("required event kind missing: "@ + required.last()@)
        }
    }
}

/// Every mismatch between the expectation and the final state, in the
/// order the checks are made.
pub open spec fn spec_fixture_mismatches(e: ReplayExpectation, o: ReplayObservation) -> Seq<Seq<char>> {
    spec_int_check("turn"@, e.turn as int, o.turn as int)
        + spec_int_check("minutes"@, e.minutes as int, o.minutes as int)
        + (if e.player_position != o.player_position {
            seq![spec_mismatch("player_position"@, spec_position_text(e.player_position), spec_position_text(o.player_position))]
        } else {
            Seq::empty()
        })
        + spec_int_check("player_hp"@, e.player_hp as int, o.player_hp as int)
        + spec_int_check("monsters_alive"@, e.monsters_alive as int, o.monsters_alive as int)
        + spec_int_check("inventory_count"@, e.inventory_count as int, o.inventory_count as int)
        + spec_int_check("ground_item_count"@, e.ground_item_count as int, o.ground_item_count as int)
        + spec_opt_text_check("world_mode"@, e.world_mode, o.world_mode@)
        + spec_opt_int_check("guild_rank"@, opt_int_u8(e.guild_rank), o.guild_rank as int)
        + spec_opt_int_check("priest_rank"@, opt_int_u8(e.priest_rank), o.priest_rank as int)
        + spec_opt_text_check("alignment"@, e.alignment, o.alignment@)
        + spec_opt_text_check("quest_state"@, e.quest_state, o.quest_state@)
        + spec_opt_bool_check("total_winner_unlocked"@, e.total_winner_unlocked, o.total_winner_unlocked)
        + spec_opt_int_check("gold"@, opt_int_i32(e.gold), o.gold as int)
        + spec_opt_int_check("bank_gold"@, opt_int_i32(e.bank_gold), o.bank_gold as int)
        + spec_opt_int_check("food"@, opt_int_i32(e.food), o.food as int)
        + spec_opt_int_check("known_site_count"@, opt_int_usize(e.known_site_count), o.known_site_count as int)
        + spec_opt_text_check("ending"@, e.ending, o.ending@)
        + spec_opt_bool_check("high_score_eligible"@, e.high_score_eligible, o.high_score_eligible)
        + spec_missing_events(e.required_event_kinds@, o.seen_event_kinds@)
}

/// The check messages of a run: the mismatches, or one line saying that
/// all checks passed.
pub open spec fn spec_fixture_checks(e: ReplayExpectation, o: ReplayObservation) -> Seq<Seq<char>> {
    if spec_fixture_mismatches(e, o).len() == 0 {
        seq!["all checks passed"@]
    } else {
        spec_fixture_mismatches(e, o)
    }
}

/// The check message of a fixture whose contract is too new.
pub open spec fn spec_schema_message(version: u16) -> Seq<char> {
    "schema mismatch: contract_version="@ + spec_dec(version as nat) + " supported_max="@
        + spec_dec(REPLAY_CONTRACT_VERSION as nat)
}

fn push_check(checks: &mut Vec<String>, msg: Vec<char>)
    ensures
        string_views(final(checks)@) == string_views(old(checks)@).push(msg@),
{
    let ghost before = string_views(checks@);
    checks.push(string_of(&msg));
    assert(string_views(checks@) =~= before.push(msg@));
}

fn mismatch_text(label: &str, e: &Vec<char>, g: &Vec<char>) -> (r: Vec<char>)
    ensures
        r@ == spec_mismatch(label@, e@, g@),
{
    let mut out = chars_of(label);
    extend_str(&mut out, " mismatch: expected ");
    extend(&mut out, e);
    extend_str(&mut out, ", got ");
    extend(&mut out, g);
    out
}

fn int_text(n: i64) -> (r: Vec<char>)
    requires
        n > i64::MIN,
    ensures
        r@ == spec_int(n as int),
{
    let mut out: Vec<char> = Vec::new();
    push_int(&mut out, n);
    out
}

fn u64_text(n: u64) -> (r: Vec<char>)
    ensures
        r@ == spec_int(n as int),
{
    let mut out: Vec<char> = Vec::new();
    push_dec(&mut out, n);
    out
}

fn check_u64(checks: &mut Vec<String>, label: &str, e: u64, g: u64)
    ensures
        string_views(final(checks)@) == string_views(old(checks)@) + spec_int_check(
            label@,
            e as int,
            g as int,
        ),
{
    let ghost before = string_views(checks@);
    if e != g {
        push_check(checks, mismatch_text(label, &u64_text(e), &u64_text(g)));
        assert(string_views(checks@) =~= before + spec_int_check(label@, e as int, g as int));
    } else {
        assert(string_views(checks@) =~= before + spec_int_check(label@, e as int, g as int));
    }
}

fn check_i64(checks: &mut Vec<String>, label: &str, e: i64, g: i64)
    requires
        e > i64::MIN,
        g > i64::MIN,
    ensures
        string_views(final(checks)@) == string_views(old(checks)@) + spec_int_check(
            label@,
            e as int,
            g as int,
        ),
{
    let ghost before = string_views(checks@);
    if e != g {
        push_check(checks, mismatch_text(label, &int_text(e), &int_text(g)));
        assert(string_views(checks@) =~= before + spec_int_check(label@, e as int, g as int));
    } else {
        assert(string_views(checks@) =~= before + spec_int_check(label@, e as int, g as int));
    }
}

fn check_opt_i64(checks: &mut Vec<String>, label: &str, e: Option<i64>, g: i64)
    requires
        e matches Some(v) ==> v > i64::MIN,
        g > i64::MIN,
    ensures
        string_views(final(checks)@) == string_views(old(checks)@) + spec_opt_int_check(
            label@,
            match e {
                Some(v) => Some(v as int),
                None => None,
            },
            g as int,
        ),
{
    let ghost before = string_views(checks@);
    match e {
        Some(v) => check_i64(checks, label, v, g),
        None => {
            assert(string_views(checks@) =~= before + Seq::<Seq<char>>::empty());
        },
    }
}

fn check_opt_text(checks: &mut Vec<String>, label: &str, e: &Option<String>, g: &String)
    ensures
        string_views(final(checks)@) == string_views(old(checks)@) + spec_opt_text_check(
            label@,
            *e,
            g@,
        ),
{
    let ghost before = string_views(checks@);
    match e {
        Some(v) => {
            if *v != *g {
                push_check(checks, mismatch_text(label, &chars_of(v.as_str()), &chars_of(g.as_str())));
            }
            assert(string_views(checks@) =~= before + spec_opt_text_check(label@, *e, g@));
        },
        None => {
            assert(string_views(checks@) =~= before + spec_opt_text_check(label@, *e, g@));
        },
    }
}

fn bool_text(b: bool) -> (r: Vec<char>)
    ensures
        r@ == spec_bool_text(b),
{
    if b {
        chars_of("true")
    } else {
        chars_of("false")
    }
}

fn check_opt_bool(checks: &mut Vec<String>, label: &str, e: Option<bool>, g: bool)
    ensures
        string_views(final(checks)@) == string_views(old(checks)@) + spec_opt_bool_check(
            label@,
            e,
            g,
        ),
{
    let ghost before = string_views(checks@);
    match e {
        Some(v) => {
            if v != g {
                push_check(checks, mismatch_text(label, &bool_text(v), &bool_text(g)));
            }
            assert(string_views(checks@) =~= before + spec_opt_bool_check(label@, e, g));
        },
        None => {
            assert(string_views(checks@) =~= before + spec_opt_bool_check(label@, e, g));
        },
    }
}

fn position_text(p: GridPosition) -> (r: Vec<char>)
    ensures
        r@ == spec_position_text(p),
{
    let mut out = chars_of("(");
    push_int(&mut out, p.x as i64);
    extend_str(&mut out, ", ");
    push_int(&mut out, p.y as i64);
    extend_str(&mut out, ")");
    out
}

fn check_events(checks: &mut Vec<String>, required: &Vec<String>, seen: &Vec<String>)
    ensures
        string_views(final(checks)@) == string_views(old(checks)@) + spec_missing_events(
            required@,
            seen@,
        ),
{
    let ghost start = string_views(checks@);
    let mut i: usize = 0;
    while i < required.len()
        invariant
            i <= required.len(),
            string_views(checks@) == start + spec_missing_events(required@.take(i as int), seen@),
        decreases required.len() - i,
    {
        assert(required@.take(i + 1).drop_last() == required@.take(i as int));
        let r = chars_of(required[i].as_str());
        if !has_tag(seen, &r) {
            let mut msg = chars_of("required event kind missing: ");
            extend(&mut msg, &r);
            push_check(checks, msg);
        }
        i = i + 1;
    }
    assert(required@.take(required.len() as int) == required@);
}

fn opt_u8_i64(o: Option<u8>) -> (r: Option<i64>)
    ensures
        match r {
            Some(v) => v > i64::MIN && opt_int_u8(o) == Some(v as int),
            None => opt_int_u8(o) is None,
        },
{
    match o {
        Some(v) => Some(v as i64),
        None => None,
    }
}

fn opt_i32_i64(o: Option<i32>) -> (r: Option<i64>)
    ensures
        match r {
            Some(v) => v > i64::MIN && opt_int_i32(o) == Some(v as int),
            None => opt_int_i32(o) is None,
        },
{
    match o {
        Some(v) => Some(v as i64),
        None => None,
    }
}

/// The mismatch messages, in check order.
pub fn fixture_mismatches(e: &ReplayExpectation, o: &ReplayObservation) -> (r: Vec<String>)
    ensures
        string_views(r@) == spec_fixture_mismatches(*e, *o),
{
    let mut checks: Vec<String> = Vec::new();
    check_u64(&mut checks, "turn", e.turn, o.turn);
    check_u64(&mut checks, "minutes", e.minutes, o.minutes);
    let ghost before = string_views(checks@);
    if e.player_position != o.player_position {
        push_check(
            &mut checks,
            mismatch_text("player_position", &position_text(e.player_position), &position_text(o.player_position)),
        );
    }
    assert(string_views(checks@) =~= before + (if e.player_position != o.player_position {
        seq![spec_mismatch("player_position"@, spec_position_text(e.player_position), spec_position_text(o.player_position))]
    } else {
        Seq::<Seq<char>>::empty()
    }));
    check_i64(&mut checks, "player_hp", e.player_hp as i64, o.player_hp as i64);
    check_u64(&mut checks, "monsters_alive", e.monsters_alive as u64, o.monsters_alive as u64);
    check_u64(&mut checks, "inventory_count", e.inventory_count as u64, o.inventory_count as u64);
    check_u64(&mut checks, "ground_item_count", e.ground_item_count as u64, o.ground_item_count as u64);
    check_opt_text(&mut checks, "world_mode", &e.world_mode, &o.world_mode);
    check_opt_i64(&mut checks, "guild_rank", opt_u8_i64(e.guild_rank), o.guild_rank as i64);
    check_opt_i64(&mut checks, "priest_rank", opt_u8_i64(e.priest_rank), o.priest_rank as i64);
    check_opt_text(&mut checks, "alignment", &e.alignment, &o.alignment);
    check_opt_text(&mut checks, "quest_state", &e.quest_state, &o.quest_state);
    check_opt_bool(&mut checks, "total_winner_unlocked", e.total_winner_unlocked, o.total_winner_unlocked);
    check_opt_i64(&mut checks, "gold", opt_i32_i64(e.gold), o.gold as i64);
    check_opt_i64(&mut checks, "bank_gold", opt_i32_i64(e.bank_gold), o.bank_gold as i64);
    check_opt_i64(&mut checks, "food", opt_i32_i64(e.food), o.food as i64);
    let ghost before_known = string_views(checks@);
    match e.known_site_count {
        Some(v) => check_u64(&mut checks, "known_site_count", v as u64, o.known_site_count as u64),
        None => {},
    }
    assert(string_views(checks@) =~= before_known + spec_opt_int_check(
        "known_site_count"@,
        opt_int_usize(e.known_site_count),
        o.known_site_count as int,
    ));
    check_opt_text(&mut checks, "ending", &e.ending, &o.ending);
    check_opt_bool(&mut checks, "high_score_eligible", e.high_score_eligible, o.high_score_eligible);
    check_events(&mut checks, &e.required_event_kinds, &o.seen_event_kinds);
    checks
}

/// The scenario result of a fixture whose replay ended in `o`.  A fixture
/// with a contract newer than this runner fails with a schema mismatch and
/// `o` is not consulted.
pub open spec fn spec_scenario_result_ok(r: ReplayScenarioResult, m: FixtureMetadata, e: ReplayExpectation, o: ReplayObservation) -> bool {
    &&& r.name@ == m.name@
    &&& r.family@ == m.family@
    &&& string_views(r.tags@) == string_views(m.tags@)
    &&& r.source@ == m.source@
    &&& r.active == m.active
    &&& r.deprecated == !m.active
    &&& if m.contract_version > REPLAY_CONTRACT_VERSION {
        &&& r.schema_mismatch
        &&& !r.passed
        &&& string_views(r.checks@) == seq![spec_schema_message(m.contract_version)]
        &&& r.final_turn == 0
        &&& r.final_minutes == 0
    } else {
        &&& !r.schema_mismatch
        &&& r.passed == (spec_fixture_mismatches(e, o).len() == 0)
        &&& string_views(r.checks@) == spec_fixture_checks(e, o)
        &&& r.final_turn == o.turn
        &&& r.final_minutes == o.minutes
    }
}

// ---------------------------------------------------------------------------
// Laws of fixture evaluation
// ---------------------------------------------------------------------------

/// Every required event kind was seen on the way.
pub open spec fn spec_all_required_seen(required: Seq<String>, seen: Seq<String>) -> bool {
    forall|i: int|
        0 <= i < required.len() ==> exists|j: int| 0 <= j < seen.len() && #[trigger] seen[j]@ == (#[trigger] required[i])@
}

proof fn lemma_missing_events_empty(required: Seq<String>, seen: Seq<String>)
    ensures
        spec_missing_events(required, seen).len() == 0 <==> spec_all_required_seen(required, seen),
    decreases required.len(),
{
    if required.len() > 0 {
        let init = required.drop_last();
        lemma_missing_events_empty(init, seen);
        if spec_all_required_seen(required, seen) {
            assert forall|i: int| 0 <= i < init.len() implies exists|j: int|
                0 <= j < seen.len() && #[trigger] seen[j]@ == (#[trigger] init[i])@ by {
                assert(init[i] == required[i]);
            }
            let k = required.len() - 1;
            assert(exists|j: int| 0 <= j < seen.len() && #[trigger] seen[j]@ == required[k]@);
            assert(spec_has_tag(seen, required.last()@));
        }
        if spec_missing_events(required, seen).len() == 0 {
            assert(spec_has_tag(seen, required.last()@));
            assert forall|i: int| 0 <= i < required.len() implies exists|j: int|
                0 <= j < seen.len() && #[trigger] seen[j]@ == (#[trigger] required[i])@ by {
                if i < required.len() - 1 {
                    assert(init[i] == required[i]);
                    assert(exists|j: int| 0 <= j < seen.len() && #[trigger] seen[j]@ == init[i]@);
                } else {
                    let j = choose|j: int| 0 <= j < seen.len() && #[trigger] seen[j]@ == required.last()@;
                    assert(seen[j]@ == required[i]@);
                }
            }
        }
    }
}

/// A replayed fixture (of a contract this runner supports) passes exactly
/// when the final state agrees with every expectation: the clock, the
/// player's position and hit points, the counts, each optional value that
/// is given, and every required event kind having been seen. A hit-point
/// difference is reported as `player_hp mismatch: expected E, got G`.
pub proof fn law_fixture_passes_only_when_all_agree(
    r: ReplayScenarioResult,
    m: FixtureMetadata,
    e: ReplayExpectation,
    o: ReplayObservation,
)
    requires
        spec_scenario_result_ok(r, m, e, o),
        m.contract_version <= REPLAY_CONTRACT_VERSION,
    ensures
        r.passed <==> {
            &&& e.turn == o.turn
            &&& e.minutes == o.minutes
            &&& e.player_position == o.player_position
            &&& e.player_hp == o.player_hp
            &&& e.monsters_alive == o.monsters_alive
            &&& e.inventory_count == o.inventory_count
            &&& e.ground_item_count == o.ground_item_count
            &&& (e.world_mode is Some ==> e.world_mode.unwrap()@ == o.world_mode@)
            &&& (e.guild_rank is Some ==> e.guild_rank.unwrap() == o.guild_rank)
            &&& (e.priest_rank is Some ==> e.priest_rank.unwrap() == o.priest_rank)
            &&& (e.alignment is Some ==> e.alignment.unwrap()@ == o.alignment@)
            &&& (e.quest_state is Some ==> e.quest_state.unwrap()@ == o.quest_state@)
            &&& (e.total_winner_unlocked is Some ==> e.total_winner_unlocked.unwrap() == o.total_winner_unlocked)
            &&& (e.gold is Some ==> e.gold.unwrap() == o.gold)
            &&& (e.bank_gold is Some ==> e.bank_gold.unwrap() == o.bank_gold)
            &&& (e.food is Some ==> e.food.unwrap() == o.food)
            &&& (e.known_site_count is Some ==> e.known_site_count.unwrap() == o.known_site_count)
            &&& (e.ending is Some ==> e.ending.unwrap()@ == o.ending@)
            &&& (e.high_score_eligible is Some ==> e.high_score_eligible.unwrap() == o.high_score_eligible)
            &&& spec_all_required_seen(e.required_event_kinds@, o.seen_event_kinds@)
        },
        e.player_hp != o.player_hp ==> string_views(r.checks@).contains(
            "player_hp mismatch: expected "@ + spec_int(e.player_hp as int) + ", got "@ + spec_int(o.player_hp as int),
        ),
{
    lemma_missing_events_empty(e.required_event_kinds@, o.seen_event_kinds@);
    if e.player_hp != o.player_hp {
        let a = spec_int_check("turn"@, e.turn as int, o.turn as int) + spec_int_check(
            "minutes"@,
            e.minutes as int,
            o.minutes as int,
        ) + (if e.player_position != o.player_position {
            seq![spec_mismatch("player_position"@, spec_position_text(e.player_position), spec_position_text(o.player_position))]
        } else {
            Seq::empty()
        });
        let hp = spec_int_check("player_hp"@, e.player_hp as int, o.player_hp as int);
        let s = spec_fixture_mismatches(e, o);
        reveal_strlit("player_hp");
        reveal_strlit(" mismatch: expected ");
        reveal_strlit("player_hp mismatch: expected ");
        let msg = "player_hp mismatch: expected "@ + spec_int(e.player_hp as int) + ", got "@ + spec_int(
            o.player_hp as int,
        );
        assert(hp[0] =~= msg);
        assert((a + hp)[a.len() as int] == msg);
        assert(s[a.len() as int] == msg);
        assert(string_views(r.checks@) == s);
    }
}

fn copy_strings(v: &Vec<String>) -> (r: Vec<String>)
    ensures
        string_views(r@) == string_views(v@),
{
    let mut out: Vec<String> = Vec::new();
    let mut i: usize = 0;
    while i < v.len()
        invariant
            i <= v.len(),
            string_views(out@) == string_views(v@).take(i as int),
        decreases v.len() - i,
    {
        let ghost before = string_views(out@);
        let c = v[i].clone();
        assert(c@ == v@[i as int]@);
        out.push(c);
        assert(string_views(out@) =~= before.push(v@[i as int]@));
        assert(string_views(out@) =~= string_views(v@).take(i + 1));
        i = i + 1;
    }
    assert(string_views(v@).take(v.len() as int) == string_views(v@));
    out
}

/// Checks a replay's final state against the fixture's expectations.
pub fn evaluate_fixture(meta: &FixtureMetadata, expected: &ReplayExpectation, observed: &ReplayObservation) -> (r: ReplayScenarioResult)
    ensures
        spec_scenario_result_ok(r, *meta, *expected, *observed),
{
    if !is_supported_contract_version(meta.contract_version) {
        let mut msg = chars_of("schema mismatch: contract_version=");
        push_dec(&mut msg, meta.contract_version as u64);
        extend_str(&mut msg, " supported_max=");
        push_dec(&mut msg, REPLAY_CONTRACT_VERSION as u64);
        let mut checks: Vec<String> = Vec::new();
        push_check(&mut checks, msg);
        assert(string_views(checks@) =~= seq![spec_schema_message(meta.contract_version)]);
        return ReplayScenarioResult {
            name: meta.name.clone(),
            family: meta.family.clone(),
            tags: copy_strings(&meta.tags),
            source: meta.source.clone(),
            active: meta.active,
            deprecated: !meta.active,
            schema_mismatch: true,
            passed: false,
            checks,
            final_turn: 0,
            final_minutes: 0,
        };
    }
    let mut checks = fixture_mismatches(expected, observed);
    let passed = checks.len() == 0;
    if passed {
        push_check(&mut checks, chars_of("all checks passed"));
    }
    ReplayScenarioResult {
        name: meta.name.clone(),
        family: meta.family.clone(),
        tags: copy_strings(&meta.tags),
        source: meta.source.clone(),
        active: meta.active,
        deprecated: !meta.active,
        schema_mismatch: false,
        passed,
        checks,
        final_turn: observed.turn,
        final_minutes: observed.minutes,
    }
}

// ---------------------------------------------------------------------------
// Dashboard
// ---------------------------------------------------------------------------

/// Per-key totals of a rollup.
#[derive(Debug, Clone, PartialEq, Eq)]
pub struct Rollup {
    pub key: String,
    pub total: usize,
    pub passed: usize,
    pub failed: usize,
}

/// Totals over all replay scenarios.
#[derive(Debug, Clone, PartialEq, Eq)]
pub struct RegressionDashboard {
    pub total: usize,
    pub passed: usize,
    pub failed: usize,
    pub active_total: usize,
    pub active_passed: usize,
    pub failed_active: usize,
    pub inactive_total: usize,
    pub inactive_passed: usize,
    pub failed_inactive: usize,
    pub schema_mismatch_total: usize,
    pub pass_rate_percent_x100: u64,
    pub critical_path_total: usize,
    pub critical_path_passed: usize,
    pub critical_path_failed: usize,
    pub tag_rollups: Vec<Rollup>,
    pub family_rollups: Vec<Rollup>,
    pub scenarios: Vec<ReplayScenarioResult>,
}

/// Which scenarios a count takes in.
pub enum Selector {
    All,
    Passed,
    Active,
    Inactive,
    ActivePassed,
    InactivePassed,
    SchemaMismatch,
    Tagged(Seq<char>),
    TaggedPassed(Seq<char>),
    Family(Seq<char>),
    FamilyPassed(Seq<char>),
}

pub open spec fn selects(sel: Selector, s: ReplayScenarioResult) -> bool {
    match sel {
        Selector::All => true,
        Selector::Passed => s.passed,
        Selector::Active => s.active,
        Selector::Inactive => !s.active,
        Selector::ActivePassed => s.active && s.passed,
        Selector::InactivePassed => !s.active && s.passed,
        Selector::SchemaMismatch => s.schema_mismatch,
        Selector::Tagged(t) => spec_has_tag(s.tags@, t),
        Selector::TaggedPassed(t) => s.passed && spec_has_tag(s.tags@, t),
        Selector::Family(f) => s.family@ == f,
        Selector::FamilyPassed(f) => s.passed && s.family@ == f,
    }
}

/// Number of scenarios the selector takes in.
pub open spec fn spec_count(ss: Seq<ReplayScenarioResult>, sel: Selector) -> nat
    decreases ss.len(),
{
    if ss.len() == 0 {
        0
    } else {
        spec_count(ss.drop_last(), sel) + if selects(sel, ss.last()) {
            1nat
        } else {
            0nat
        }
    }
}

pub proof fn lemma_count_le(ss: Seq<ReplayScenarioResult>, sel: Selector)
    ensures
        spec_count(ss, sel) <= ss.len(),
    decreases ss.len(),
{
    if ss.len() > 0 {
        lemma_count_le(ss.drop_last(), sel);
    }
}

/// Every scenario is counted by `All`.
pub proof fn lemma_count_all(ss: Seq<ReplayScenarioResult>)
    ensures
        spec_count(ss, Selector::All) == ss.len(),
    decreases ss.len(),
{
    if ss.len() > 0 {
        lemma_count_all(ss.drop_last());
    }
}

/// A selector's count never exceeds the count of a wider selector.
pub proof fn lemma_count_mono(ss: Seq<ReplayScenarioResult>, narrow: Selector, wide: Selector)
    requires
        forall|s: ReplayScenarioResult| selects(narrow, s) ==> selects(wide, s),
    ensures
        spec_count(ss, narrow) <= spec_count(ss, wide),
    decreases ss.len(),
{
    if ss.len() > 0 {
        lemma_count_mono(ss.drop_last(), narrow, wide);
    }
}

/// Counts over disjoint selectors add up.
pub proof fn lemma_count_split(ss: Seq<ReplayScenarioResult>, a: Selector, b: Selector, both: Selector)
    requires
        forall|s: ReplayScenarioResult| selects(both, s) <==> (selects(a, s) || selects(b, s)),
        forall|s: ReplayScenarioResult| !(selects(a, s) && selects(b, s)),
    ensures
        spec_count(ss, both) == spec_count(ss, a) + spec_count(ss, b),
    decreases ss.len(),
{
    if ss.len() > 0 {
        lemma_count_split(ss.drop_last(), a, b, both);
    }
}

/// The executable form of a selector.
enum Select {
    Passed,
    Active,
    ActivePassed,
    InactivePassed,
    SchemaMismatch,
    Tagged(Vec<char>),
    TaggedPassed(Vec<char>),
    Family(Vec<char>),
    FamilyPassed(Vec<char>),
}

spec fn select_view(s: Select) -> Selector {
    match s {
        Select::Passed => Selector::Passed,
        Select::Active => Selector::Active,
        Select::ActivePassed => Selector::ActivePassed,
        Select::InactivePassed => Selector::InactivePassed,
        Select::SchemaMismatch => Selector::SchemaMismatch,
        Select::Tagged(t) => Selector::Tagged(t@),
        Select::TaggedPassed(t) => Selector::TaggedPassed(t@),
        Select::Family(f) => Selector::Family(f@),
        Select::FamilyPassed(f) => Selector::FamilyPassed(f@),
    }
}

fn selected(sel: &Select, s: &ReplayScenarioResult) -> (r: bool)
    ensures
        r == selects(select_view(*sel), *s),
{
    match sel {
        Select::Passed => s.passed,
        Select::Active => s.active,
        Select::ActivePassed => s.active && s.passed,
        Select::InactivePassed => !s.active && s.passed,
        Select::SchemaMismatch => s.schema_mismatch,
        Select::Tagged(t) => has_tag(&s.tags, t),
        Select::TaggedPassed(t) => s.passed && has_tag(&s.tags, t),
        Select::Family(f) => chars_eq(&chars_of(s.family.as_str()), f),
        Select::FamilyPassed(f) => s.passed && chars_eq(&chars_of(s.family.as_str()), f),
    }
}

fn count_selected(ss: &Vec<ReplayScenarioResult>, sel: &Select) -> (r: usize)
    ensures
        r == spec_count(ss@, select_view(*sel)),
{
    let mut n: usize = 0;
    let mut i: usize = 0;
    while i < ss.len()
        invariant
            i <= ss.len(),
            n == spec_count(ss@.take(i as int), select_view(*sel)),
        decreases ss.len() - i,
    {
        assert(ss@.take(i + 1).drop_last() == ss@.take(i as int));
        proof {
            lemma_count_le(ss@.take(i as int), select_view(*sel));
        }
        if selected(sel, &ss[i]) {
            n = n + 1;
        }
        i = i + 1;
    }
    assert(ss@.take(ss.len() as int) == ss@);
    n
}

/// All tags of all scenarios, in order.
pub open spec fn spec_all_tags(ss: Seq<ReplayScenarioResult>) -> Seq<Seq<char>>
    decreases ss.len(),
{
    if ss.len() == 0 {
        Seq::empty()
    } else {
        spec_all_tags(ss.drop_last()) + string_views(ss.last().tags@)
    }
}

/// The family of each scenario, in order.
pub open spec fn spec_families(ss: Seq<ReplayScenarioResult>) -> Seq<Seq<char>> {
    ss.map_values(|s: ReplayScenarioResult| s.family@)
}

pub open spec fn rollup_keys(r: Seq<Rollup>) -> Seq<Seq<char>> {
    r.map_values(|x: Rollup| x.key@)
}

/// `r` has one rollup per distinct key of `keys`, in ascending key order,
/// counting the scenarios tagged with the key (or, for families, of that
/// family) and those of them that passed.
pub open spec fn is_rollup_of(r: Seq<Rollup>, keys: Seq<Seq<char>>, ss: Seq<ReplayScenarioResult>, by_family: bool) -> bool {
    &&& is_sorted_key_set(rollup_keys(r), keys)
    &&& forall|k: int|
        0 <= k < r.len() ==> {
            let key = #[trigger] r[k].key@;
            &&& r[k].total == spec_count(
                ss,
                if by_family {
                    Selector::Family(key)
                } else {
                    Selector::Tagged(key)
                },
            )
            &&& r[k].passed == spec_count(
                ss,
                if by_family {
                    Selector::FamilyPassed(key)
                } else {
                    Selector::TaggedPassed(key)
                },
            )
            &&& r[k].failed == r[k].total - r[k].passed
        }
}

fn build_rollups(keys: &Vec<String>, scenarios: &Vec<ReplayScenarioResult>, by_family: bool) -> (r: Vec<Rollup>)
    ensures
        is_rollup_of(r@, string_views(keys@), scenarios@, by_family),
{
    let mut kv: Vec<Vec<char>> = Vec::new();
    let mut i: usize = 0;
    while i < keys.len()
        invariant
            i <= keys.len(),
            kv.deep_view() == string_views(keys@).take(i as int),
        decreases keys.len() - i,
    {
        let ghost before = kv.deep_view();
        let k = chars_of(keys[i].as_str());
        kv.push(k);
        assert(kv.deep_view() =~= before.push(keys@[i as int]@));
        assert(string_views(keys@).take(i + 1) =~= string_views(keys@).take(i as int).push(keys@[i as int]@));
        i = i + 1;
    }
    assert(string_views(keys@).take(keys.len() as int) == string_views(keys@));
    let unique = sorted_key_set(&kv);
    let mut out: Vec<Rollup> = Vec::new();
    let mut j: usize = 0;
    while j < unique.len()
        invariant
            j <= unique.len(),
            is_sorted_key_set(unique.deep_view(), string_views(keys@)),
            out.len() == j,
            forall|k: int| 0 <= k < j ==> #[trigger] out@[k].key@ == unique.deep_view()[k],
            forall|k: int|
                0 <= k < j ==> {
                    let key = #[trigger] out@[k].key@;
                    &&& out@[k].total == spec_count(
                        scenarios@,
                        if by_family {
                            Selector::Family(key)
                        } else {
                            Selector::Tagged(key)
                        },
                    )
                    &&& out@[k].passed == spec_count(
                        scenarios@,
                        if by_family {
                            Selector::FamilyPassed(key)
                        } else {
                            Selector::TaggedPassed(key)
                        },
                    )
                    &&& out@[k].failed == out@[k].total - out@[k].passed
                },
        decreases unique.len() - j,
    {
        let key = clone_chars(&unique[j]);
        assert(unique.deep_view()[j as int] == unique[j as int]@);
        let (all_sel, pass_sel) = if by_family {
            (Select::Family(clone_chars(&key)), Select::FamilyPassed(clone_chars(&key)))
        } else {
            (Select::Tagged(clone_chars(&key)), Select::TaggedPassed(clone_chars(&key)))
        };
        let total = count_selected(scenarios, &all_sel);
        let passed = count_selected(scenarios, &pass_sel);
        proof {
            lemma_count_mono(scenarios@, select_view(pass_sel), select_view(all_sel));
        }
        let ghost before = out@;
        out.push(Rollup { key: string_of(&key), total, passed, failed: total - passed });
        assert(out@ == before.push(out@[j as int]));
        j = j + 1;
    }
    assert(rollup_keys(out@) =~= unique.deep_view());
    out
}

/// Rollups of the scenarios per tag, over the distinct keys of `keys`.
pub fn build_tag_rollups(keys: &Vec<String>, scenarios: &Vec<ReplayScenarioResult>) -> (r: Vec<Rollup>)
    ensures
        is_rollup_of(r@, string_views(keys@), scenarios@, false),
{
    build_rollups(keys, scenarios, false)
}

/// Rollups of the scenarios per family, over the distinct keys of `keys`.
pub fn build_family_rollups(keys: &Vec<String>, scenarios: &Vec<ReplayScenarioResult>) -> (r: Vec<Rollup>)
    ensures
        is_rollup_of(r@, string_views(keys@), scenarios@, true),
{
    build_rollups(keys, scenarios, true)
}

/// The tag that marks a critical-path scenario.
pub open spec fn critical_path_tag() -> Seq<char> {
    "critical_path"@
}

/// The totals of a dashboard over scenarios `ss`.
pub open spec fn is_dashboard_of(d: RegressionDashboard, ss: Seq<ReplayScenarioResult>) -> bool {
    &&& d.total == ss.len()
    &&& d.passed == spec_count(ss, Selector::Passed)
    &&& d.failed == d.total - d.passed
    &&& d.active_total == spec_count(ss, Selector::Active)
    &&& d.active_passed == spec_count(ss, Selector::ActivePassed)
    &&& d.failed_active == d.active_total - d.active_passed
    &&& d.inactive_total == d.total - d.active_total
    &&& d.inactive_passed == spec_count(ss, Selector::InactivePassed)
    &&& d.failed_inactive == d.inactive_total - d.inactive_passed
    &&& d.schema_mismatch_total == spec_count(ss, Selector::SchemaMismatch)
    &&& d.pass_rate_percent_x100 == if d.total == 0 {
        0
    } else {
        (d.passed * 10000) / (d.total as int)
    }
    &&& d.critical_path_total == spec_count(ss, Selector::Tagged(critical_path_tag()))
    &&& d.critical_path_passed == spec_count(ss, Selector::TaggedPassed(critical_path_tag()))
    &&& d.critical_path_failed == d.critical_path_total - d.critical_path_passed
    &&& is_rollup_of(d.tag_rollups@, spec_all_tags(ss), ss, false)
    &&& is_rollup_of(d.family_rollups@, spec_families(ss), ss, true)
    &&& d.scenarios@ == ss
}

/// The dashboard of a list of scenario results.
pub fn dashboard_from_scenarios(scenarios: Vec<ReplayScenarioResult>) -> (r: RegressionDashboard)
    ensures
        is_dashboard_of(r, scenarios@),
{
    let ghost ss = scenarios@;
    let total = scenarios.len();
    let passed = count_selected(&scenarios, &Select::Passed);
    let active_total = count_selected(&scenarios, &Select::Active);
    let active_passed = count_selected(&scenarios, &Select::ActivePassed);
    let inactive_passed = count_selected(&scenarios, &Select::InactivePassed);
    let schema_mismatch_total = count_selected(&scenarios, &Select::SchemaMismatch);
    let critical = chars_of("critical_path");
    let critical_path_total = count_selected(&scenarios, &Select::Tagged(clone_chars(&critical)));
    let critical_path_passed = count_selected(&scenarios, &Select::TaggedPassed(clone_chars(&critical)));
    proof {
        lemma_count_le(ss, Selector::Passed);
        lemma_count_le(ss, Selector::Active);
        lemma_count_mono(ss, Selector::ActivePassed, Selector::Active);
        lemma_count_mono(ss, Selector::TaggedPassed(critical@), Selector::Tagged(critical@));
        lemma_count_split(ss, Selector::Active, Selector::Inactive, Selector::All);
        lemma_count_all(ss);
    }
    let failed = total - passed;
    let failed_active = active_total - active_passed;
    let inactive_total = total - active_total;
    proof {
        lemma_count_mono(ss, Selector::InactivePassed, Selector::Inactive);
    }
    let failed_inactive = inactive_total - inactive_passed;
    let pass_rate_percent_x100: u64 = if total == 0 {
        0
    } else {
        assert((passed as int) * 10000 / (total as int) <= 10000) by (nonlinear_arith)
            requires
                passed <= total,
                total > 0,
        ;
        (((passed as u128) * 10000) / (total as u128)) as u64
    };
    let mut all_tags: Vec<String> = Vec::new();
    let mut families: Vec<String> = Vec::new();
    let mut i: usize = 0;
    while i < scenarios.len()
        invariant
            i <= scenarios.len(),
            ss == scenarios@,
            string_views(all_tags@) == spec_all_tags(ss.take(i as int)),
            string_views(families@) == spec_families(ss.take(i as int)),
        decreases scenarios.len() - i,
    {
        assert(ss.take(i + 1).drop_last() == ss.take(i as int));
        let ghost before_tags = string_views(all_tags@);
        let mut k: usize = 0;
        while k < scenarios[i].tags.len()
            invariant
                i < scenarios.len(),
                k <= scenarios@[i as int].tags.len(),
                string_views(all_tags@) == before_tags + string_views(scenarios@[i as int].tags@).take(k as int),
            decreases scenarios@[i as int].tags.len() - k,
        {
            let ghost b = string_views(all_tags@);
            let t = scenarios[i].tags[k].clone();
            assert(t@ == scenarios@[i as int].tags@[k as int]@);
            all_tags.push(t);
            assert(string_views(all_tags@) =~= b.push(t@));
            assert(string_views(scenarios@[i as int].tags@).take(k + 1) =~= string_views(scenarios@[i as int].tags@).take(k as int).push(t@));
            k = k + 1;
        }
        assert(string_views(scenarios@[i as int].tags@).take(scenarios@[i as int].tags.len() as int) == string_views(scenarios@[i as int].tags@));
        let ghost bf = string_views(families@);
        let f = scenarios[i].family.clone();
        families.push(f);
        assert(string_views(families@) =~= bf.push(ss[i as int].family@));
        assert(spec_families(ss.take(i + 1)) =~= spec_families(ss.take(i as int)).push(ss[i as int].family@));
        i = i + 1;
    }
    assert(ss.take(scenarios.len() as int) == ss);
    let tag_rollups = build_tag_rollups(&all_tags, &scenarios);
    let family_rollups = build_family_rollups(&families, &scenarios);
    RegressionDashboard {
        total,
        passed,
        failed,
        active_total,
        active_passed,
        failed_active,
        inactive_total,
        inactive_passed,
        failed_inactive,
        schema_mismatch_total,
        pass_rate_percent_x100,
        critical_path_total,
        critical_path_passed,
        critical_path_failed: critical_path_total - critical_path_passed,
        tag_rollups,
        family_rollups,
        scenarios,
    }
}

/// The dashboard of a directory of fixtures: each fixture, in path order,
/// with what its replay observed, is evaluated, and the results are summed
/// up.
pub fn run_dashboard_from_dir(
    fixtures: &Vec<(FixtureMetadata, ReplayExpectation, ReplayObservation)>,
) -> (r: RegressionDashboard)
    ensures
        r.scenarios.len() == fixtures.len(),
        forall|i: int| 0 <= i < fixtures.len() ==> spec_scenario_result_ok(
            #[trigger] r.scenarios@[i],
            fixtures@[i].0,
            fixtures@[i].1,
            fixtures@[i].2,
        ),
        is_dashboard_of(r, r.scenarios@),
{
    let mut scenarios: Vec<ReplayScenarioResult> = Vec::new();
    let mut i: usize = 0;
    while i < fixtures.len()
        invariant
            i <= fixtures.len(),
            scenarios.len() == i,
            forall|k: int| 0 <= k < i ==> spec_scenario_result_ok(
                #[trigger] scenarios@[k],
                fixtures@[k].0,
                fixtures@[k].1,
                fixtures@[k].2,
            ),
        decreases fixtures.len() - i,
    {
        let (meta, expected, observed) = &fixtures[i];
        scenarios.push(evaluate_fixture(meta, expected, observed));
        i = i + 1;
    }
    dashboard_from_scenarios(scenarios)
}

// ---------------------------------------------------------------------------
// Dashboard Markdown
// ---------------------------------------------------------------------------

/// `"{n:02}"`: at least two digits.
pub open spec fn spec_two_digits(n: nat) -> Seq<char> {
    if n < 10 {
        "0"@ + spec_dec(n)
    } else {
        spec_dec(n)
    }
}

pub open spec fn spec_rollup_row(r: Rollup) -> Seq<char> {
    "| "@ + r.key@ + " | "@ + spec_dec(r.total as nat) + " | "@ + spec_dec(r.passed as nat)
        + " | "@ + spec_dec(r.failed as nat) + " |"@
}

pub open spec fn spec_rollup_rows(rs: Seq<Rollup>) -> Seq<Seq<char>>
    decreases rs.len(),
{
    if rs.len() == 0 {
        Seq::empty()
    } else {
        spec_rollup_rows(rs.drop_last()).push(spec_rollup_row(rs.last()))
    }
}

/// A rollup table with its heading, or nothing when there are no rollups.
pub open spec fn spec_rollup_section(rs: Seq<Rollup>, heading: Seq<char>, column: Seq<char>) -> Seq<Seq<char>> {
    if rs.len() == 0 {
        Seq::empty()
    } else {
        seq![heading, Seq::empty(), "| "@ + column + " | Total | Passed | Failed |"@, "|---|---:|---:|---:|"@]
            + spec_rollup_rows(rs) + seq![Seq::empty()]
    }
}

pub open spec fn spec_yes_no(b: bool) -> Seq<char> {
    if b {
        "yes"@
    } else {
        "no"@
    }
}

pub open spec fn spec_sample_row(s: ReplayScenarioResult) -> Seq<char> {
    "| "@ + s.name@ + " | "@ + s.family@ + " | "@ + spec_yes_no(s.active) + " | "@ + s.source@
        + " | "@ + (if s.schema_mismatch {
        "mismatch"@
    } else {
        "ok"@
    }) + " | "@ + (if s.passed {
        "PASS"@
    } else {
        "FAIL"@
    }) + " | "@ + spec_dec(s.final_turn as nat) + " | "@ + spec_dec(s.final_minutes as nat)
        + " |"@
}

pub open spec fn spec_sample_rows(ss: Seq<ReplayScenarioResult>) -> Seq<Seq<char>>
    decreases ss.len(),
{
    if ss.len() == 0 {
        Seq::empty()
    } else {
        spec_sample_rows(ss.drop_last()).push(spec_sample_row(ss.last()))
    }
}

/// Number of scenarios listed in the sample table.
pub open spec fn sample_limit() -> nat {
    120
}

pub open spec fn spec_failure_block(s: ReplayScenarioResult) -> Seq<Seq<char>> {
    if s.passed {
        Seq::empty()
    } else {
        seq![
            "## Failure: "@ + s.name@,
            "- active="@ + spec_bool_text(s.active) + " source="@ + s.source@ + " schema_mismatch="@
                + spec_bool_text(s.schema_mismatch),
        ] + string_views(s.checks@).map_values(|c: Seq<char>| "- "@ + c) + seq![Seq::empty()]
    }
}

pub open spec fn spec_failure_blocks(ss: Seq<ReplayScenarioResult>) -> Seq<Seq<char>>
    decreases ss.len(),
{
    if ss.len() == 0 {
        Seq::empty()
    } else {
        spec_failure_blocks(ss.drop_last()) + spec_failure_block(ss.last())
    }
}

/// The summary lines at the top of the dashboard.
pub open spec fn spec_dashboard_head(d: RegressionDashboard) -> Seq<Seq<char>> {
    seq![
        "# WS-D Regression Dashboard"@,
        Seq::empty(),
        "- Total scenarios: "@ + spec_dec(d.total as nat),
        "- Passed: "@ + spec_dec(d.passed as nat),
        "- Failed: "@ + spec_dec(d.failed as nat),
        "- Active denominator: total="@ + spec_dec(d.active_total as nat) + ", passed="@
            + spec_dec(d.active_passed as nat) + ", failed="@ + spec_dec(d.failed_active as nat),
        "- Inactive scenarios: total="@ + spec_dec(d.inactive_total as nat) + ", passed="@
            + spec_dec(d.inactive_passed as nat) + ", failed="@ + spec_dec(d.failed_inactive as nat),
        "- Schema mismatches: "@ + spec_dec(d.schema_mismatch_total as nat),
        "- Pass rate: "@ + spec_dec((d.pass_rate_percent_x100 / 100) as nat) + "."@
            + spec_two_digits((d.pass_rate_percent_x100 % 100) as nat) + "%"@,
        "- Critical path: total="@ + spec_dec(d.critical_path_total as nat) + ", passed="@
            + spec_dec(d.critical_path_passed as nat) + ", failed="@ + spec_dec(
            d.critical_path_failed as nat,
        ),
        Seq::empty(),
    ]
}

/// The sample table: the first scenarios, then a line for the rest.
pub open spec fn spec_sample_section(ss: Seq<ReplayScenarioResult>) -> Seq<Seq<char>> {
    seq![
        "## Scenario Sample"@,
        Seq::empty(),
        "| Scenario | Family | Active | Source | Schema | Result | Final Turn | Final Minutes |"@,
        "|---|---|---|---|---|---|---:|---:|"@,
    ] + spec_sample_rows(
        if ss.len() <= sample_limit() {
            ss
        } else {
            ss.take(sample_limit() as int)
        },
    ) + (if ss.len() > sample_limit() {
        seq!["| ... "@ + spec_dec((ss.len() - sample_limit()) as nat) + " more | - | - | - | - | - | - | - |"@]
    } else {
        Seq::empty()
    }) + seq![Seq::empty()]
}

/// All lines of the dashboard.
pub open spec fn spec_dashboard_lines(d: RegressionDashboard) -> Seq<Seq<char>> {
    spec_dashboard_head(d) + spec_rollup_section(d.tag_rollups@, "## Tag Rollups"@, "Tag"@)
        + spec_rollup_section(d.family_rollups@, "## Family Rollups"@, "Family"@)
        + spec_sample_section(d.scenarios@) + spec_failure_blocks(d.scenarios@)
}

fn push_line(lines: &mut Vec<Vec<char>>, l: Vec<char>)
    ensures
        final(lines).deep_view() == old(lines).deep_view().push(l@),
{
    let ghost before = lines.deep_view();
    let ghost lv = l@;
    lines.push(l);
    assert(lines.deep_view() =~= before.push(lv));
}

fn push_text_line(lines: &mut Vec<Vec<char>>, s: &str)
    ensures
        final(lines).deep_view() == old(lines).deep_view().push(s@),
{
    push_line(lines, chars_of(s));
}

fn push_empty_line(lines: &mut Vec<Vec<char>>)
    ensures
        final(lines).deep_view() == old(lines).deep_view().push(Seq::empty()),
{
    push_line(lines, Vec::new());
}

fn labelled_count(label: &str, n: u64) -> (r: Vec<char>)
    ensures
        r@ == label@ + spec_dec(n as nat),
{
    let mut out = chars_of(label);
    push_dec(&mut out, n);
    out
}

fn triple_line(label: &str, a: usize, b: usize, c: usize) -> (r: Vec<char>)
    ensures
        r@ == label@ + spec_dec(a as nat) + ", passed="@ + spec_dec(b as nat) + ", failed="@
            + spec_dec(c as nat),
{
    let mut out = chars_of(label);
    push_dec(&mut out, a as u64);
    extend_str(&mut out, ", passed=");
    push_dec(&mut out, b as u64);
    extend_str(&mut out, ", failed=");
    push_dec(&mut out, c as u64);
    out
}

fn push_rollup_section(lines: &mut Vec<Vec<char>>, rs: &Vec<Rollup>, heading: &str, column: &str)
    ensures
        final(lines).deep_view() == old(lines).deep_view() + spec_rollup_section(
            rs@,
            heading@,
            column@,
        ),
{
    let ghost start = lines.deep_view();
    if rs.len() == 0 {
        assert(lines.deep_view() =~= start + spec_rollup_section(rs@, heading@, column@));
        return;
    }
    push_text_line(lines, heading);
    push_empty_line(lines);
    let mut h = chars_of("| ");
    extend_str(&mut h, column);
    extend_str(&mut h, " | Total | Passed | Failed |");
    push_line(lines, h);
    push_text_line(lines, "|---|---:|---:|---:|");
    let ghost head = lines.deep_view();
    let mut i: usize = 0;
    while i < rs.len()
        invariant
            i <= rs.len(),
            lines.deep_view() == head + spec_rollup_rows(rs@.take(i as int)),
        decreases rs.len() - i,
    {
        assert(rs@.take(i + 1).drop_last() == rs@.take(i as int));
        let r = &rs[i];
        let mut row = chars_of("| ");
        extend_str(&mut row, r.key.as_str());
        extend_str(&mut row, " | ");
        push_dec(&mut row, r.total as u64);
        extend_str(&mut row, " | ");
        push_dec(&mut row, r.passed as u64);
        extend_str(&mut row, " | ");
        push_dec(&mut row, r.failed as u64);
        extend_str(&mut row, " |");
        push_line(lines, row);
        i = i + 1;
    }
    assert(rs@.take(rs.len() as int) == rs@);
    push_empty_line(lines);
    assert(lines.deep_view() =~= start + spec_rollup_section(rs@, heading@, column@));
}

fn sample_row(s: &ReplayScenarioResult) -> (r: Vec<char>)
    ensures
        r@ == spec_sample_row(*s),
{
    let mut row = chars_of("| ");
    extend_str(&mut row, s.name.as_str());
    extend_str(&mut row, " | ");
    extend_str(&mut row, s.family.as_str());
    extend_str(&mut row, " | ");
    extend_str(&mut row, if s.active { "yes" } else { "no" });
    extend_str(&mut row, " | ");
    extend_str(&mut row, s.source.as_str());
    extend_str(&mut row, " | ");
    extend_str(&mut row, if s.schema_mismatch { "mismatch" } else { "ok" });
    extend_str(&mut row, " | ");
    extend_str(&mut row, if s.passed { "PASS" } else { "FAIL" });
    extend_str(&mut row, " | ");
    push_dec(&mut row, s.final_turn);
    extend_str(&mut row, " | ");
    push_dec(&mut row, s.final_minutes);
    extend_str(&mut row, " |");
    row
}

fn push_sample_section(lines: &mut Vec<Vec<char>>, ss: &Vec<ReplayScenarioResult>)
    ensures
        final(lines).deep_view() == old(lines).deep_view() + spec_sample_section(ss@),
{
    let ghost start = lines.deep_view();
    push_text_line(lines, "## Scenario Sample");
    push_empty_line(lines);
    push_text_line(lines, "| Scenario | Family | Active | Source | Schema | Result | Final Turn | Final Minutes |");
    push_text_line(lines, "|---|---|---|---|---|---|---:|---:|");
    let ghost head = lines.deep_view();
    let limit: usize = 120;
    let n = if ss.len() <= limit { ss.len() } else { limit };
    let ghost shown = if ss.len() <= sample_limit() {
        ss@
    } else {
        ss@.take(sample_limit() as int)
    };
    assert(shown == ss@.take(n as int));
    let mut i: usize = 0;
    while i < n
        invariant
            i <= n <= ss.len(),
            lines.deep_view() == head + spec_sample_rows(ss@.take(i as int)),
        decreases n - i,
    {
        assert(ss@.take(i + 1).drop_last() == ss@.take(i as int));
        push_line(lines, sample_row(&ss[i]));
        i = i + 1;
    }
    let ghost after_rows = lines.deep_view();
    if ss.len() > limit {
        let mut more = chars_of("| ... ");
        push_dec(&mut more, (ss.len() - limit) as u64);
        extend_str(&mut more, " more | - | - | - | - | - | - | - |");
        push_line(lines, more);
    }
    push_empty_line(lines);
    assert(lines.deep_view() =~= start + spec_sample_section(ss@));
}

fn push_failure_block(lines: &mut Vec<Vec<char>>, s: &ReplayScenarioResult)
    ensures
        final(lines).deep_view() == old(lines).deep_view() + spec_failure_block(*s),
{
    let ghost start = lines.deep_view();
    if s.passed {
        assert(lines.deep_view() =~= start + spec_failure_block(*s));
        return;
    }
    let mut h = chars_of("## Failure: ");
    extend_str(&mut h, s.name.as_str());
    push_line(lines, h);
    let mut meta = chars_of("- active=");
    extend_str(&mut meta, if s.active { "true" } else { "false" });
    extend_str(&mut meta, " source=");
    extend_str(&mut meta, s.source.as_str());
    extend_str(&mut meta, " schema_mismatch=");
    extend_str(&mut meta, if s.schema_mismatch { "true" } else { "false" });
    push_line(lines, meta);
    let ghost head = lines.deep_view();
    let ghost cs = string_views(s.checks@);
    let mut i: usize = 0;
    while i < s.checks.len()
        invariant
            i <= s.checks.len(),
            cs == string_views(s.checks@),
            lines.deep_view() == head + cs.take(i as int).map_values(|c: Seq<char>| "- "@ + c),
        decreases s.checks.len() - i,
    {
        let mut l = chars_of("- ");
        extend_str(&mut l, s.checks[i].as_str());
        push_line(lines, l);
        assert(cs.take(i + 1).map_values(|c: Seq<char>| "- "@ + c) =~= cs.take(i as int).map_values(
            |c: Seq<char>| "- "@ + c,
        ).push("- "@ + cs[i as int]));
        i = i + 1;
    }
    assert(cs.take(s.checks.len() as int) == cs);
    push_empty_line(lines);
    assert(lines.deep_view() =~= start + spec_failure_block(*s));
}

/// The lines of the dashboard joined by newlines.
pub fn dashboard_markdown(dashboard: &RegressionDashboard) -> (r: String)
    ensures
        r@ == spec_join(spec_dashboard_lines(*dashboard), "\n"@),
{
    let d = dashboard;
    let mut lines: Vec<Vec<char>> = Vec::new();
    push_text_line(&mut lines, "# WS-D Regression Dashboard");
    push_empty_line(&mut lines);
    push_line(&mut lines, labelled_count("- Total scenarios: ", d.total as u64));
    push_line(&mut lines, labelled_count("- Passed: ", d.passed as u64));
    push_line(&mut lines, labelled_count("- Failed: ", d.failed as u64));
    push_line(&mut lines, triple_line("- Active denominator: total=", d.active_total, d.active_passed, d.failed_active));
    push_line(&mut lines, triple_line("- Inactive scenarios: total=", d.inactive_total, d.inactive_passed, d.failed_inactive));
    push_line(&mut lines, labelled_count("- Schema mismatches: ", d.schema_mismatch_total as u64));
    let mut rate = chars_of("- Pass rate: ");
    push_dec(&mut rate, d.pass_rate_percent_x100 / 100);
    extend_str(&mut rate, ".");
    let frac = d.pass_rate_percent_x100 % 100;
    if frac < 10 {
        extend_str(&mut rate, "0");
    }
    push_dec(&mut rate, frac);
    extend_str(&mut rate, "%");
    assert(rate@ == "- Pass rate: "@ + spec_dec((d.pass_rate_percent_x100 / 100) as nat) + "."@
        + spec_two_digits((d.pass_rate_percent_x100 % 100) as nat) + "%"@);
    push_line(&mut lines, rate);
    push_line(&mut lines, triple_line("- Critical path: total=", d.critical_path_total, d.critical_path_passed, d.critical_path_failed));
    push_empty_line(&mut lines);
    let ghost hd = spec_dashboard_head(*d);
    assert(lines.deep_view() =~= spec_dashboard_head(*d));
    push_rollup_section(&mut lines, &d.tag_rollups, "## Tag Rollups", "Tag");
    push_rollup_section(&mut lines, &d.family_rollups, "## Family Rollups", "Family");
    push_sample_section(&mut lines, &d.scenarios);
    let ghost head = lines.deep_view();
    let mut i: usize = 0;
    while i < d.scenarios.len()
        invariant
            i <= d.scenarios.len(),
            lines.deep_view() == head + spec_failure_blocks(d.scenarios@.take(i as int)),
        decreases d.scenarios.len() - i,
    {
        assert(d.scenarios@.take(i + 1).drop_last() == d.scenarios@.take(i as int));
        push_failure_block(&mut lines, &d.scenarios[i]);
        i = i + 1;
    }
    assert(d.scenarios@.take(d.scenarios.len() as int) == d.scenarios@);
    assert(lines.deep_view() =~= spec_dashboard_lines(*d));
    let out = join(&lines, &chars_of("\n"));
    string_of(&out)
}

} // verus!
