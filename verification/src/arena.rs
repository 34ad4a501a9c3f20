//! The test-ground controls of the terminal frontend: the brush, the
//! spawner catalogs, the event log, and what each key asks of the arena.
//!
//! The grids that catastrophes and snapshots act on belong to the game
//! engine; a key that touches them yields an `ArenaEffect` for the caller
//! to carry out.
use vstd::prelude::*;

use crate::text::{chars_eq_str, chars_of, spec_int, string_of};

verus! {

/// The element that a mouse stroke paints.
#[derive(Debug, Clone, Copy, PartialEq, Eq, Structural)]
pub enum BrushMode {
    Fire,
    Water,
    Ash,
    /// No brush is selected.
    Off,
}

/// The catalog that the spawner panel shows.
#[derive(Debug, Clone, Copy, PartialEq, Eq, Structural)]
pub enum SpawnerCategory {
    Monster,
    Item,
    Hazard,
}

/// The stats a spawned monster starts with.
#[derive(Debug, Clone, Copy, PartialEq, Eq, Structural)]
pub struct SpawnStats {
    pub hp: i32,
    pub max_hp: i32,
    pub attack_min: i32,
    pub attack_max: i32,
    pub defense: i32,
    pub weight: i32,
}

/// A key as the arena panel reads it.
#[derive(Debug, Clone, Copy, PartialEq, Eq, Structural)]
pub enum ArenaKey {
    Char(char),
    Up,
    Down,
    Tab,
    Enter,
    Esc,
    Backspace,
    /// Any other key.
    Other,
}

/// What the arena asks of the session after a key.
#[derive(Debug, Clone, PartialEq, Eq)]
pub enum ArenaAction {
    SpawnMonster { name: String, stats: SpawnStats },
    SpawnItem { name: String },
    SpawnHazard { effect_id: String, damage: i32 },
    ClearMonsters,
    ClearItems,
    ToggleAiPaused,
    ResetArenaFixture,
    /// The arena used the key itself.
    Consumed,
    /// The arena leaves the key to the rest of the frontend.
    Ignore,
}

/// What a key asks of the engine's grids, at the player's position where
/// it matters.
#[derive(Debug, Clone, Copy, PartialEq, Eq, Structural)]
pub enum ArenaEffect {
    GreatFlood { x: i32, y: i32 },
    ForestFire { x: i32, y: i32 },
    Windstorm,
    FuelField,
    Doomsday,
    SaveSnapshot,
    RestoreSnapshot,
    Nothing,
}

/// The test-ground panel's own state.
#[derive(Debug, Clone)]
pub struct ArenaUi {
    pub brush_mode: BrushMode,
    pub show_perf_hud: bool,
    pub show_logs: bool,
    pub spawner_selected: usize,
    pub spawner_catalog: Vec<String>,
    pub item_catalog: Vec<String>,
    pub hazard_catalog: Vec<String>,
    pub spawner_category: SpawnerCategory,
    pub item_selected: usize,
    pub hazard_selected: usize,
    pub event_log: Vec<String>,
    pub turret_active: bool,
    pub tooling_enabled: bool,
    pub projectile_count: usize,
    pub particle_count: usize,
}

/// The mathematical form of the panel's state.
pub struct ArenaView {
    pub brush_mode: BrushMode,
    pub show_perf_hud: bool,
    pub show_logs: bool,
    pub spawner_selected: usize,
    pub spawner_catalog: Seq<Seq<char>>,
    pub item_catalog: Seq<Seq<char>>,
    pub hazard_catalog: Seq<Seq<char>>,
    pub spawner_category: SpawnerCategory,
    pub item_selected: usize,
    pub hazard_selected: usize,
    pub event_log: Seq<Seq<char>>,
    pub turret_active: bool,
    pub tooling_enabled: bool,
    pub projectile_count: usize,
    pub particle_count: usize,
}

pub open spec fn texts(v: Seq<String>) -> Seq<Seq<char>> {
    v.map_values(|s: String| s@)
}

impl View for ArenaUi {
    type V = ArenaView;

    open spec fn view(&self) -> ArenaView {
        ArenaView {
            brush_mode: self.brush_mode,
            show_perf_hud: self.show_perf_hud,
            show_logs: self.show_logs,
            spawner_selected: self.spawner_selected,
            spawner_catalog: texts(self.spawner_catalog@),
            item_catalog: texts(self.item_catalog@),
            hazard_catalog: texts(self.hazard_catalog@),
            spawner_category: self.spawner_category,
            item_selected: self.item_selected,
            hazard_selected: self.hazard_selected,
            event_log: texts(self.event_log@),
            turret_active: self.turret_active,
            tooling_enabled: self.tooling_enabled,
            projectile_count: self.projectile_count,
            particle_count: self.particle_count,
        }
    }
}

/// Each selection points into its catalog.
pub open spec fn arena_wf(s: ArenaView) -> bool {
    &&& s.spawner_selected < s.spawner_catalog.len()
    &&& s.item_selected < s.item_catalog.len()
    &&& s.hazard_selected < s.hazard_catalog.len()
}

/// The event log keeps the newest twenty messages.
pub open spec fn spec_log_push(log: Seq<Seq<char>>, msg: Seq<char>) -> Seq<Seq<char>> {
    let l = log.push(msg);
    if l.len() > 20 {
        l.drop_first()
    } else {
        l
    }
}

pub open spec fn spec_on_off(b: bool) -> Seq<char> {
    if b {
        "ON"@
    } else {
        "OFF"@
    }
}

/// The log lines of the performance panel.
pub open spec fn spec_log_lines(s: ArenaView) -> Seq<Seq<char>> {
    if s.show_logs {
        let n = s.event_log.len();
        let shown = if n < 10 { n } else { 10 };
        seq!["--- EVENT LOG ---"@] + Seq::new(shown, |i: int| s.event_log[n - 1 - i])
    } else {
        seq!["[L] Logs (collapsed)"@]
    }
}

/// The monster catalog's starting stats, by name.
pub open spec fn spec_monster_stats(name: Seq<char>) -> SpawnStats {
    if name == "rat"@ {
        SpawnStats { hp: 6, max_hp: 6, attack_min: 1, attack_max: 2, defense: 0, weight: 20 }
    } else if name == "goblin"@ {
        SpawnStats { hp: 12, max_hp: 12, attack_min: 2, attack_max: 4, defense: 1, weight: 50 }
    } else if name == "ogre"@ {
        SpawnStats { hp: 20, max_hp: 20, attack_min: 3, attack_max: 6, defense: 2, weight: 80 }
    } else {
        SpawnStats { hp: 10, max_hp: 10, attack_min: 2, attack_max: 3, defense: 0, weight: 40 }
    }
}

/// The hazard catalog's trap effect and damage, by name.
pub open spec fn spec_hazard(name: Seq<char>) -> (Seq<char>, i32) {
    if name == "poison trap"@ {
        ("poison"@, 6)
    } else if name == "fire trap"@ {
        ("fire"@, 8)
    } else {
        ("poison"@, 4)
    }
}

/// The panel's state after a key, when the test-ground tools are on.
pub open spec fn spec_tool_next(s: ArenaView, key: ArenaKey, snapshot_available: bool) -> ArenaView {
    match key {
        ArenaKey::Char(c) => {
            if c == '1' {
                ArenaView { event_log: spec_log_push(s.event_log, "Great Flood triggered!"@), ..s }
            } else if c == '2' {
                ArenaView { event_log: spec_log_push(s.event_log, "Forest Fire triggered!"@), ..s }
            } else if c == '3' {
                ArenaView { event_log: spec_log_push(s.event_log, "Windstorm triggered!"@), ..s }
            } else if c == '4' {
                ArenaView { event_log: spec_log_push(s.event_log, "Fuel Field triggered!"@), ..s }
            } else if c == '5' {
                ArenaView { event_log: spec_log_push(s.event_log, "DOOMSDAY triggered!"@), ..s }
            } else if c == 's' {
                ArenaView { event_log: spec_log_push(s.event_log, "Snapshot saved."@), ..s }
            } else if c == 'r' {
                ArenaView {
                    event_log: spec_log_push(
                        s.event_log,
                        if snapshot_available {
                            "Snapshot restored."@
                        } else {
                            "No snapshots to restore."@
                        },
                    ),
                    ..s
                }
            } else if c == 't' {
                ArenaView {
                    turret_active: !s.turret_active,
                    event_log: spec_log_push(s.event_log, "Turret mode: "@ + spec_on_off(!s.turret_active)),
                    ..s
                }
            } else if c == 'f' {
                ArenaView { brush_mode: BrushMode::Fire, ..s }
            } else if c == 'w' {
                ArenaView { brush_mode: BrushMode::Water, ..s }
            } else if c == 'a' {
                ArenaView { brush_mode: BrushMode::Ash, ..s }
            } else if c == 'n' {
                ArenaView { brush_mode: BrushMode::Off, ..s }
            } else if c == 'l' {
                ArenaView { show_logs: !s.show_logs, ..s }
            } else {
                s
            }
        },
        ArenaKey::Up => match s.spawner_category {
            SpawnerCategory::Monster => ArenaView {
                spawner_selected: if s.spawner_selected > 0 { (s.spawner_selected - 1) as usize } else { 0 },
                ..s
            },
            SpawnerCategory::Item => ArenaView {
                item_selected: if s.item_selected > 0 { (s.item_selected - 1) as usize } else { 0 },
                ..s
            },
            SpawnerCategory::Hazard => ArenaView {
                hazard_selected: if s.hazard_selected > 0 { (s.hazard_selected - 1) as usize } else { 0 },
                ..s
            },
        },
        ArenaKey::Down => match s.spawner_category {
            SpawnerCategory::Monster => ArenaView {
                spawner_selected: if s.spawner_selected + 1 < s.spawner_catalog.len() {
                    (s.spawner_selected + 1) as usize
                } else {
                    s.spawner_selected
                },
                ..s
            },
            SpawnerCategory::Item => ArenaView {
                item_selected: if s.item_selected + 1 < s.item_catalog.len() {
                    (s.item_selected + 1) as usize
                } else {
                    s.item_selected
                },
                ..s
            },
            SpawnerCategory::Hazard => ArenaView {
                hazard_selected: if s.hazard_selected + 1 < s.hazard_catalog.len() {
                    (s.hazard_selected + 1) as usize
                } else {
                    s.hazard_selected
                },
                ..s
            },
        },
        ArenaKey::Tab => ArenaView {
            spawner_category: match s.spawner_category {
                SpawnerCategory::Monster => SpawnerCategory::Item,
                SpawnerCategory::Item => SpawnerCategory::Hazard,
                SpawnerCategory::Hazard => SpawnerCategory::Monster,
            },
            ..s
        },
        _ => s,
    }
}

/// The panel's state after a key: the backtick toggles the tools, and the
/// other keys act only while they are on.
pub open spec fn spec_arena_next(s: ArenaView, key: ArenaKey, snapshot_available: bool) -> ArenaView {
    if key == ArenaKey::Char('`') {
        ArenaView {
            tooling_enabled: !s.tooling_enabled,
            event_log: spec_log_push(
                s.event_log,
                if !s.tooling_enabled {
                    "Test Ground controls enabled."@
                } else {
                    "Test Ground controls disabled."@
                },
            ),
            ..s
        }
    } else if !s.tooling_enabled {
        s
    } else {
        spec_tool_next(s, key, snapshot_available)
    }
}

/// The mathematical form of an arena action.
pub enum ArenaActionView {
    SpawnMonster(Seq<char>, SpawnStats),
    SpawnItem(Seq<char>),
    SpawnHazard(Seq<char>, i32),
    ClearMonsters,
    ClearItems,
    ToggleAiPaused,
    ResetArenaFixture,
    Consumed,
    Ignore,
}

pub open spec fn arena_action_view(a: ArenaAction) -> ArenaActionView {
    match a {
        ArenaAction::SpawnMonster { name, stats } => ArenaActionView::SpawnMonster(name@, stats),
        ArenaAction::SpawnItem { name } => ArenaActionView::SpawnItem(name@),
        ArenaAction::SpawnHazard { effect_id, damage } => ArenaActionView::SpawnHazard(effect_id@, damage),
        ArenaAction::ClearMonsters => ArenaActionView::ClearMonsters,
        ArenaAction::ClearItems => ArenaActionView::ClearItems,
        ArenaAction::ToggleAiPaused => ArenaActionView::ToggleAiPaused,
        ArenaAction::ResetArenaFixture => ArenaActionView::ResetArenaFixture,
        ArenaAction::Consumed => ArenaActionView::Consumed,
        ArenaAction::Ignore => ArenaActionView::Ignore,
    }
}

/// What Enter spawns: the selected entry of the shown catalog.
pub open spec fn spec_enter_action(s: ArenaView) -> ArenaActionView {
    match s.spawner_category {
        SpawnerCategory::Monster => {
            let name = s.spawner_catalog[s.spawner_selected as int];
            ArenaActionView::SpawnMonster(name, spec_monster_stats(name))
        },
        SpawnerCategory::Item => ArenaActionView::SpawnItem(s.item_catalog[s.item_selected as int]),
        SpawnerCategory::Hazard => {
            let h = spec_hazard(s.hazard_catalog[s.hazard_selected as int]);
            ArenaActionView::SpawnHazard(h.0, h.1)
        },
    }
}

/// What a key asks of the session.
pub open spec fn spec_arena_action(s: ArenaView, key: ArenaKey) -> ArenaActionView {
    if key == ArenaKey::Char('`') {
        ArenaActionView::Consumed
    } else if !s.tooling_enabled {
        ArenaActionView::Ignore
    } else {
        match key {
            ArenaKey::Char(c) => {
                if c == 'm' {
                    ArenaActionView::ClearMonsters
                } else if c == 'i' {
                    ArenaActionView::ClearItems
                } else if c == 'p' {
                    ArenaActionView::ToggleAiPaused
                } else if c == '0' {
                    ArenaActionView::ResetArenaFixture
                } else if c == '1' || c == '2' || c == '3' || c == '4' || c == '5' || c == 's' || c == 'r'
                    || c == 't' || c == 'f' || c == 'w' || c == 'a' || c == 'n' || c == 'l' {
                    ArenaActionView::Consumed
                } else {
                    ArenaActionView::Ignore
                }
            },
            ArenaKey::Up | ArenaKey::Down | ArenaKey::Tab => ArenaActionView::Consumed,
            ArenaKey::Enter => spec_enter_action(s),
            _ => ArenaActionView::Ignore,
        }
    }
}

/// What a key asks of the engine's grids.
pub open spec fn spec_arena_effect(s: ArenaView, key: ArenaKey, player: (i32, i32)) -> ArenaEffect {
    if key == ArenaKey::Char('`') || !s.tooling_enabled {
        ArenaEffect::Nothing
    } else {
        match key {
            ArenaKey::Char(c) => {
                if c == '1' {
                    ArenaEffect::GreatFlood { x: player.0, y: player.1 }
                } else if c == '2' {
                    ArenaEffect::ForestFire { x: player.0, y: player.1 }
                } else if c == '3' {
                    ArenaEffect::Windstorm
                } else if c == '4' {
                    ArenaEffect::FuelField
                } else if c == '5' {
                    ArenaEffect::Doomsday
                } else if c == 's' {
                    ArenaEffect::SaveSnapshot
                } else if c == 'r' {
                    ArenaEffect::RestoreSnapshot
                } else {
                    ArenaEffect::Nothing
                }
            },
            _ => ArenaEffect::Nothing,
        }
    }
}

/// Every key keeps the panel well formed and its event log at most twenty
/// messages long.
pub proof fn law_arena_step_keeps_bounds(s: ArenaView, key: ArenaKey, snapshot_available: bool)
    requires
        arena_wf(s),
        s.event_log.len() <= 20,
    ensures
        arena_wf(spec_arena_next(s, key, snapshot_available)),
        spec_arena_next(s, key, snapshot_available).event_log.len() <= 20,
{
}

/// The backtick twice gives the tools back their state and changes nothing
/// but the log.
pub proof fn law_tooling_toggle_twice(s: ArenaView, a: bool, b: bool)
    ensures
        ({
            let t = spec_arena_next(spec_arena_next(s, ArenaKey::Char('`'), a), ArenaKey::Char('`'), b);
            t == ArenaView { event_log: t.event_log, ..s }
        }),
{
}

/// While the tools are off, every key but the backtick leaves the panel
/// as it is, asks nothing of the session and touches no grid.
pub proof fn law_tools_off_ignore_keys(s: ArenaView, key: ArenaKey, player: (i32, i32), snapshot_available: bool)
    requires
        !s.tooling_enabled,
        key != ArenaKey::Char('`'),
    ensures
        spec_arena_next(s, key, snapshot_available) == s,
        spec_arena_action(s, key) == ArenaActionView::Ignore,
        spec_arena_effect(s, key, player) == ArenaEffect::Nothing,
{
}

/// With the tools on, the brush keys set the brush: `f` fire, `w` water,
/// `a` ash, `n` none, four different modes whatever the brush was; a brush
/// key changes nothing else, and no other key changes the brush.
pub proof fn law_brush_keys_set_brush(s: ArenaView, key: ArenaKey, snapshot_available: bool)
    requires
        s.tooling_enabled,
    ensures
        key == ArenaKey::Char('f') ==> spec_arena_next(s, key, snapshot_available) == (ArenaView {
            brush_mode: BrushMode::Fire,
            ..s
        }),
        key == ArenaKey::Char('w') ==> spec_arena_next(s, key, snapshot_available) == (ArenaView {
            brush_mode: BrushMode::Water,
            ..s
        }),
        key == ArenaKey::Char('a') ==> spec_arena_next(s, key, snapshot_available) == (ArenaView {
            brush_mode: BrushMode::Ash,
            ..s
        }),
        key == ArenaKey::Char('n') ==> spec_arena_next(s, key, snapshot_available) == (ArenaView {
            brush_mode: BrushMode::Off,
            ..s
        }),
        !(key == ArenaKey::Char('f') || key == ArenaKey::Char('w') || key == ArenaKey::Char('a') || key
            == ArenaKey::Char('n')) ==> spec_arena_next(s, key, snapshot_available).brush_mode == s.brush_mode,
{
}

/// Three Tabs with the tools on show the catalog that was shown before.
pub proof fn law_tab_cycles_catalogs(s: ArenaView, a: bool, b: bool, c: bool)
    requires
        s.tooling_enabled,
    ensures
        spec_arena_next(spec_arena_next(spec_arena_next(s, ArenaKey::Tab, a), ArenaKey::Tab, b), ArenaKey::Tab, c) == s,
{
}

fn text(s: &str) -> (r: String)
    ensures
        r@ == s@,
{
    string_of(&chars_of(s))
}

fn on_off(b: bool) -> (r: &'static str)
    ensures
        r@ == spec_on_off(b),
{
    if b {
        "ON"
    } else {
        "OFF"
    }
}

/// The starting stats of a catalog monster.
pub fn monster_stats(name: &String) -> (r: SpawnStats)
    ensures
        r == spec_monster_stats(name@),
{
    let v = chars_of(name.as_str());
    if chars_eq_str(&v, "rat") {
        SpawnStats { hp: 6, max_hp: 6, attack_min: 1, attack_max: 2, defense: 0, weight: 20 }
    } else if chars_eq_str(&v, "goblin") {
        SpawnStats { hp: 12, max_hp: 12, attack_min: 2, attack_max: 4, defense: 1, weight: 50 }
    } else if chars_eq_str(&v, "ogre") {
        SpawnStats { hp: 20, max_hp: 20, attack_min: 3, attack_max: 6, defense: 2, weight: 80 }
    } else {
        SpawnStats { hp: 10, max_hp: 10, attack_min: 2, attack_max: 3, defense: 0, weight: 40 }
    }
}

/// The trap effect and damage of a catalog hazard.
pub fn hazard_effect(name: &String) -> (r: (String, i32))
    ensures
        r.0@ == spec_hazard(name@).0,
        r.1 == spec_hazard(name@).1,
{
    let v = chars_of(name.as_str());
    if chars_eq_str(&v, "poison trap") {
        (text("poison"), 6)
    } else if chars_eq_str(&v, "fire trap") {
        (text("fire"), 8)
    } else {
        (text("poison"), 4)
    }
}

/// Where a spawned monster lands: the first of the player's east, west,
/// north and south neighbours that is open (on the map and walkable), else
/// the player's own square. `open` tells that of each, in that order.
pub open spec fn spec_spawn_position(player: (i32, i32), open: (bool, bool, bool, bool)) -> (int, int) {
    if open.0 {
        (player.0 + 1, player.1 as int)
    } else if open.1 {
        (player.0 - 1, player.1 as int)
    } else if open.2 {
        (player.0 as int, player.1 - 1)
    } else if open.3 {
        (player.0 as int, player.1 + 1)
    } else {
        (player.0 as int, player.1 as int)
    }
}

pub fn spawn_position(player: (i32, i32), open: (bool, bool, bool, bool)) -> (r: (i32, i32))
    requires
        i32::MIN < player.0 < i32::MAX,
        i32::MIN < player.1 < i32::MAX,
    ensures
        (r.0 as int, r.1 as int) == spec_spawn_position(player, open),
{
    if open.0 {
        (player.0 + 1, player.1)
    } else if open.1 {
        (player.0 - 1, player.1)
    } else if open.2 {
        (player.0, player.1 - 1)
    } else if open.3 {
        (player.0, player.1 + 1)
    } else {
        player
    }
}

/// ` at (x, y).`
pub open spec fn spec_at(x: i32, y: i32) -> Seq<char> {
    " at ("@ + spec_int(x as int) + ", "@ + spec_int(y as int) + ")."@
}

fn push_at(out: &mut Vec<char>, x: i32, y: i32)
    ensures
        final(out)@ == old(out)@ + spec_at(x, y),
{
    crate::text::extend_str(out, " at (");
    crate::text::push_int(out, x as i64);
    crate::text::extend_str(out, ", ");
    crate::text::push_int(out, y as i64);
    crate::text::extend_str(out, ").");
    assert(out@ =~= old(out)@ + spec_at(x, y));
}

/// The log line of a spawned monster.
pub fn spawned_monster_message(name: &String, x: i32, y: i32) -> (r: String)
    ensures
        r@ == "Spawned "@ + name@ + spec_at(x, y),
{
    let mut v = chars_of("Spawned ");
    crate::text::extend_str(&mut v, name.as_str());
    push_at(&mut v, x, y);
    string_of(&v)
}

/// The log line of a spawned item.
pub fn spawned_item_message(name: &String, x: i32, y: i32) -> (r: String)
    ensures
        r@ == "Spawned item "@ + name@ + spec_at(x, y),
{
    let mut v = chars_of("Spawned item ");
    crate::text::extend_str(&mut v, name.as_str());
    push_at(&mut v, x, y);
    string_of(&v)
}

/// The log line of a fire spawn: the tile ignited, or the spawn failed
/// where there was no tile.
pub fn fire_message(ignited: bool, x: i32, y: i32) -> (r: String)
    ensures
        r@ == (if ignited { "Ignited tile"@ } else { "Fire spawn failed"@ }) + spec_at(x, y),
{
    let mut v = if ignited {
        chars_of("Ignited tile")
    } else {
        chars_of("Fire spawn failed")
    };
    push_at(&mut v, x, y);
    string_of(&v)
}

/// The log line of a placed hazard and its trap id.
pub fn spawned_hazard_message(effect_id: &String, trap_id: u64, x: i32, y: i32) -> (r: String)
    ensures
        r@ == "Spawned hazard "@ + effect_id@ + " (id "@ + crate::text::spec_dec(trap_id as nat) + ")"@ + spec_at(x, y),
{
    let mut v = chars_of("Spawned hazard ");
    crate::text::extend_str(&mut v, effect_id.as_str());
    crate::text::extend_str(&mut v, " (id ");
    crate::text::push_dec(&mut v, trap_id);
    crate::text::extend_str(&mut v, ")");
    push_at(&mut v, x, y);
    assert(v@ =~= "Spawned hazard "@ + effect_id@ + " (id "@ + crate::text::spec_dec(trap_id as nat) + ")"@ + spec_at(x, y));
    string_of(&v)
}

/// The log line of a cleared monster or item list.
pub fn cleared_message(removed: u64, monsters: bool) -> (r: String)
    ensures
        r@ == "Cleared "@ + crate::text::spec_dec(removed as nat) + (if monsters { " monster(s)."@ } else { " item(s)."@ }),
{
    let mut v = chars_of("Cleared ");
    crate::text::push_dec(&mut v, removed);
    if monsters {
        crate::text::extend_str(&mut v, " monster(s).");
    } else {
        crate::text::extend_str(&mut v, " item(s).");
    }
    string_of(&v)
}

/// The log line of the monster-turn toggle, by the new paused flag.
pub fn ai_paused_message(paused: bool) -> (r: &'static str)
    ensures
        r@ == (if paused { "Monster turns paused."@ } else { "Monster turns resumed."@ }),
{
    if paused {
        "Monster turns paused."
    } else {
        "Monster turns resumed."
    }
}

impl ArenaUi {
    /// The panel as it opens: no brush, the monster catalog shown with its
    /// first entry selected, and the tools on.
    pub fn new() -> (r: ArenaUi)
        ensures
            arena_wf(r@),
            r@.brush_mode == BrushMode::Off,
            r@.show_perf_hud,
            !r@.show_logs,
            r@.spawner_selected == 0,
            r@.spawner_catalog == seq!["rat"@, "goblin"@, "ogre"@],
            r@.item_catalog == seq!["short sword"@, "buckler"@, "healing potion"@, "identify scroll"@, "fire"@],
            r@.hazard_catalog == seq!["poison trap"@, "fire trap"@],
            r@.spawner_category == SpawnerCategory::Monster,
            r@.item_selected == 0,
            r@.hazard_selected == 0,
            r@.event_log == Seq::<Seq<char>>::empty(),
            !r@.turret_active,
            r@.tooling_enabled,
            r@.projectile_count == 0,
            r@.particle_count == 0,
    {
        let spawner_catalog = vec![text("rat"), text("goblin"), text("ogre")];
        let item_catalog = vec![
            text("short sword"),
            text("buckler"),
            text("healing potion"),
            text("identify scroll"),
            text("fire"),
        ];
        let hazard_catalog = vec![text("poison trap"), text("fire trap")];
        let r = ArenaUi {
            brush_mode: BrushMode::Off,
            show_perf_hud: true,
            show_logs: false,
            spawner_selected: 0,
            spawner_catalog,
            item_catalog,
            hazard_catalog,
            spawner_category: SpawnerCategory::Monster,
            item_selected: 0,
            hazard_selected: 0,
            event_log: Vec::new(),
            turret_active: false,
            tooling_enabled: true,
            projectile_count: 0,
            particle_count: 0,
        };
        assert(r@.spawner_catalog =~= seq!["rat"@, "goblin"@, "ogre"@]);
        assert(r@.item_catalog =~= seq!["short sword"@, "buckler"@, "healing potion"@, "identify scroll"@, "fire"@]);
        assert(r@.hazard_catalog =~= seq!["poison trap"@, "fire trap"@]);
        assert(r@.event_log =~= Seq::<Seq<char>>::empty());
        r
    }

    /// Records the live projectile and particle counts the arena's engine
    /// reported; nothing else changes.
    pub fn update_entity_counts(&mut self, projectile_count: usize, particle_count: usize)
        ensures
            final(self)@ == (ArenaView { projectile_count, particle_count, ..old(self)@ }),
    {
        self.projectile_count = projectile_count;
        self.particle_count = particle_count;
    }

    /// Appends a message to the event log, dropping the oldest beyond twenty.
    pub fn log_event(&mut self, msg: &str)
        ensures
            final(self)@ == (ArenaView { event_log: spec_log_push(old(self)@.event_log, msg@), ..old(self)@ }),
    {
        let ghost before = self.event_log@;
        self.event_log.push(text(msg));
        assert(texts(self.event_log@) =~= texts(before).push(msg@));
        if self.event_log.len() > 20 {
            let ghost pushed = self.event_log@;
            self.event_log.remove(0);
            assert(texts(self.event_log@) =~= texts(pushed).drop_first());
        }
        assert(self@.event_log =~= spec_log_push(old(self)@.event_log, msg@));
        assert(self@.spawner_catalog =~= old(self)@.spawner_catalog);
        assert(self@.item_catalog =~= old(self)@.item_catalog);
        assert(self@.hazard_catalog =~= old(self)@.hazard_catalog);
    }

    /// Where a mouse press or drag paints with the brush: the grid cell
    /// under the pointer, counted from the map area's corner. Nothing is
    /// painted while the tools are off, with no brush, within the pause
    /// after the last stroke (`recent`), for other mouse events, or off the
    /// grid.
    pub fn paint_target(
        &self,
        recent: bool,
        pressed: bool,
        column: u16,
        row: u16,
        area_x: u16,
        area_y: u16,
        grid_width: usize,
        grid_height: usize,
    ) -> (r: Option<(usize, usize)>)
        ensures
            r == (if !self.tooling_enabled || self.brush_mode == BrushMode::Off || recent || !pressed {
                None
            } else {
                let x = if column >= area_x { column - area_x } else { 0int };
                let y = if row >= area_y { row - area_y } else { 0int };
                if x < grid_width && y < grid_height {
                    Some((x as usize, y as usize))
                } else {
                    None
                }
            }),
    {
        if !self.tooling_enabled || self.brush_mode == BrushMode::Off || recent || !pressed {
            return None;
        }
        let x: u16 = if column >= area_x { column - area_x } else { 0 };
        let y: u16 = if row >= area_y { row - area_y } else { 0 };
        if (x as usize) < grid_width && (y as usize) < grid_height {
            Some((x as usize, y as usize))
        } else {
            None
        }
    }

    /// The lines of the catastrophe panel: the keys, then the turret and
    /// the tools, each `ON` or `OFF`.
    pub fn catastrophe_lines(&self) -> (r: Vec<String>)
        ensures
            texts(r@) == seq![
                "[1] Great Flood   [2] Forest Fire"@,
                "[3] Windstorm     [4] Fuel Field"@,
                "[5] DOOMSDAY"@,
                Seq::<char>::empty(),
                "[S] Snapshot      [R] Restore"@,
                "[M] Clear Monsters [I] Clear Items"@,
                "[P] Pause AI      [0] Reset Fixture"@,
                "[T] Turret: "@ + spec_on_off(self.turret_active),
                "[`] Tooling: "@ + spec_on_off(self.tooling_enabled),
            ],
    {
        let mut turret = chars_of("[T] Turret: ");
        crate::text::extend_str(&mut turret, on_off(self.turret_active));
        let mut tooling = chars_of("[`] Tooling: ");
        crate::text::extend_str(&mut tooling, on_off(self.tooling_enabled));
        let r = vec![
            text("[1] Great Flood   [2] Forest Fire"),
            text("[3] Windstorm     [4] Fuel Field"),
            text("[5] DOOMSDAY"),
            string_of(&Vec::new()),
            text("[S] Snapshot      [R] Restore"),
            text("[M] Clear Monsters [I] Clear Items"),
            text("[P] Pause AI      [0] Reset Fixture"),
            string_of(&turret),
            string_of(&tooling),
        ];
        assert(texts(r@) =~= seq![
            "[1] Great Flood   [2] Forest Fire"@,
            "[3] Windstorm     [4] Fuel Field"@,
            "[5] DOOMSDAY"@,
            Seq::<char>::empty(),
            "[S] Snapshot      [R] Restore"@,
            "[M] Clear Monsters [I] Clear Items"@,
            "[P] Pause AI      [0] Reset Fixture"@,
            "[T] Turret: "@ + spec_on_off(self.turret_active),
            "[`] Tooling: "@ + spec_on_off(self.tooling_enabled),
        ]);
        r
    }

    /// The spawner panel's title, its catalog and the selected entry.
    pub fn spawner_view(&self) -> (r: (&'static str, Vec<String>, usize))
        ensures
            r.0@ == match self.spawner_category {
                SpawnerCategory::Monster => "MONSTER SPAWNER [TAB]"@,
                SpawnerCategory::Item => "ITEM SPAWNER [TAB]"@,
                SpawnerCategory::Hazard => "HAZARD SPAWNER [TAB]"@,
            },
            r.1@ == match self.spawner_category {
                SpawnerCategory::Monster => self.spawner_catalog@,
                SpawnerCategory::Item => self.item_catalog@,
                SpawnerCategory::Hazard => self.hazard_catalog@,
            },
            r.2 == match self.spawner_category {
                SpawnerCategory::Monster => self.spawner_selected,
                SpawnerCategory::Item => self.item_selected,
                SpawnerCategory::Hazard => self.hazard_selected,
            },
    {
        match self.spawner_category {
            SpawnerCategory::Monster => ("MONSTER SPAWNER [TAB]", self.spawner_catalog.clone(), self.spawner_selected),
            SpawnerCategory::Item => ("ITEM SPAWNER [TAB]", self.item_catalog.clone(), self.item_selected),
            SpawnerCategory::Hazard => ("HAZARD SPAWNER [TAB]", self.hazard_catalog.clone(), self.hazard_selected),
        }
    }

    /// The log lines of the performance panel: when the log is shown, a
    /// heading and the newest ten messages, newest first; else a note that
    /// it is collapsed.
    pub fn log_lines(&self) -> (r: Vec<String>)
        ensures
            texts(r@) == spec_log_lines(self@),
    {
        if !self.show_logs {
            let r = vec![text("[L] Logs (collapsed)")];
            assert(texts(r@) =~= spec_log_lines(self@));
            return r;
        }
        let ghost lv = self@.event_log;
        let mut r = vec![text("--- EVENT LOG ---")];
        let n = self.event_log.len();
        let shown: usize = if n < 10 { n } else { 10 };
        let mut k: usize = 0;
        assert(texts(r@) =~= spec_log_lines(self@).take(1));
        while k < shown
            invariant
                k <= shown,
                n == self.event_log.len(),
                shown == (if n < 10 { n } else { 10 }),
                lv == self@.event_log,
                self.show_logs,
                texts(r@) == spec_log_lines(self@).take(k + 1),
            decreases shown - k,
        {
            let ghost before = texts(r@);
            r.push(self.event_log[n - 1 - k].clone());
            assert(texts(r@) =~= before.push(lv[n - 1 - k]));
            assert(spec_log_lines(self@).take(k + 2) =~= spec_log_lines(self@).take(k + 1).push(lv[n - 1 - k]));
            k = k + 1;
        }
        assert(spec_log_lines(self@).take(shown + 1) =~= spec_log_lines(self@));
        r
    }

    fn enter_action(&self) -> (r: ArenaAction)
        requires
            arena_wf(self@),
        ensures
            arena_action_view(r) == spec_enter_action(self@),
    {
        match self.spawner_category {
            SpawnerCategory::Monster => {
                let name = self.spawner_catalog[self.spawner_selected].clone();
                let stats = monster_stats(&name);
                ArenaAction::SpawnMonster { name, stats }
            },
            SpawnerCategory::Item => {
                let name = self.item_catalog[self.item_selected].clone();
                ArenaAction::SpawnItem { name }
            },
            SpawnerCategory::Hazard => {
                let (effect_id, damage) = hazard_effect(&self.hazard_catalog[self.hazard_selected]);
                ArenaAction::SpawnHazard { effect_id, damage }
            },
        }
    }
    /// Reads a key: the backtick toggles the tools; while they are on, the
    /// digits fire catastrophes, `s` and `r` save and restore a snapshot,
    /// the letters set the brush and panels, the arrows move the selection,
    /// Tab switches catalogs and Enter spawns the selected entry.
    /// `snapshot_available` tells whether a restore finds a snapshot.
    pub fn handle_arena_input(&mut self, key: ArenaKey, player: (i32, i32), snapshot_available: bool) -> (r: (
        ArenaAction,
        ArenaEffect,
    ))
        requires
            arena_wf(old(self)@),
        ensures
            arena_wf(final(self)@),
            final(self)@ == spec_arena_next(old(self)@, key, snapshot_available),
            arena_action_view(r.0) == spec_arena_action(old(self)@, key),
            r.1 == spec_arena_effect(old(self)@, key, player),
    {
        assert(self@.spawner_catalog.len() == self.spawner_catalog.len());
        assert(self@.item_catalog.len() == self.item_catalog.len());
        assert(self@.hazard_catalog.len() == self.hazard_catalog.len());
        if key == ArenaKey::Char('`') {
            self.tooling_enabled = !self.tooling_enabled;
            if self.tooling_enabled {
                self.log_event("Test Ground controls enabled.");
            } else {
                self.log_event("Test Ground controls disabled.");
            }
            return (ArenaAction::Consumed, ArenaEffect::Nothing);
        }
        if !self.tooling_enabled {
            return (ArenaAction::Ignore, ArenaEffect::Nothing);
        }
        match key {
            ArenaKey::Char(c) => {
                if c == '1' {
                    self.log_event("Great Flood triggered!");
                    (ArenaAction::Consumed, ArenaEffect::GreatFlood { x: player.0, y: player.1 })
                } else if c == '2' {
                    self.log_event("Forest Fire triggered!");
                    (ArenaAction::Consumed, ArenaEffect::ForestFire { x: player.0, y: player.1 })
                } else if c == '3' {
                    self.log_event("Windstorm triggered!");
                    (ArenaAction::Consumed, ArenaEffect::Windstorm)
                } else if c == '4' {
                    self.log_event("Fuel Field triggered!");
                    (ArenaAction::Consumed, ArenaEffect::FuelField)
                } else if c == '5' {
                    self.log_event("DOOMSDAY triggered!");
                    (ArenaAction::Consumed, ArenaEffect::Doomsday)
                } else if c == 's' {
                    self.log_event("Snapshot saved.");
                    (ArenaAction::Consumed, ArenaEffect::SaveSnapshot)
                } else if c == 'r' {
                    if snapshot_available {
                        self.log_event("Snapshot restored.");
                    } else {
                        self.log_event("No snapshots to restore.");
                    }
                    (ArenaAction::Consumed, ArenaEffect::RestoreSnapshot)
                } else if c == 't' {
                    self.turret_active = !self.turret_active;
                    let mut msg = chars_of("Turret mode: ");
                    crate::text::extend_str(&mut msg, on_off(self.turret_active));
                    let msg = string_of(&msg);
                    self.log_event(msg.as_str());
                    (ArenaAction::Consumed, ArenaEffect::Nothing)
                } else if c == 'm' {
                    (ArenaAction::ClearMonsters, ArenaEffect::Nothing)
                } else if c == 'i' {
                    (ArenaAction::ClearItems, ArenaEffect::Nothing)
                } else if c == 'p' {
                    (ArenaAction::ToggleAiPaused, ArenaEffect::Nothing)
                } else if c == '0' {
                    (ArenaAction::ResetArenaFixture, ArenaEffect::Nothing)
                } else if c == 'f' {
                    self.brush_mode = BrushMode::Fire;
                    (ArenaAction::Consumed, ArenaEffect::Nothing)
                } else if c == 'w' {
                    self.brush_mode = BrushMode::Water;
                    (ArenaAction::Consumed, ArenaEffect::Nothing)
                } else if c == 'a' {
                    self.brush_mode = BrushMode::Ash;
                    (ArenaAction::Consumed, ArenaEffect::Nothing)
                } else if c == 'n' {
                    self.brush_mode = BrushMode::Off;
                    (ArenaAction::Consumed, ArenaEffect::Nothing)
                } else if c == 'l' {
                    self.show_logs = !self.show_logs;
                    (ArenaAction::Consumed, ArenaEffect::Nothing)
                } else {
                    (ArenaAction::Ignore, ArenaEffect::Nothing)
                }
            },
            ArenaKey::Up => {
                match self.spawner_category {
                    SpawnerCategory::Monster => {
                        if self.spawner_selected > 0 {
                            self.spawner_selected = self.spawner_selected - 1;
                        }
                    },
                    SpawnerCategory::Item => {
                        if self.item_selected > 0 {
                            self.item_selected = self.item_selected - 1;
                        }
                    },
                    SpawnerCategory::Hazard => {
                        if self.hazard_selected > 0 {
                            self.hazard_selected = self.hazard_selected - 1;
                        }
                    },
                }
                (ArenaAction::Consumed, ArenaEffect::Nothing)
            },
            ArenaKey::Down => {
                match self.spawner_category {
                    SpawnerCategory::Monster => {
                        if self.spawner_selected + 1 < self.spawner_catalog.len() {
                            self.spawner_selected = self.spawner_selected + 1;
                        }
                    },
                    SpawnerCategory::Item => {
                        if self.item_selected + 1 < self.item_catalog.len() {
                            self.item_selected = self.item_selected + 1;
                        }
                    },
                    SpawnerCategory::Hazard => {
                        if self.hazard_selected + 1 < self.hazard_catalog.len() {
                            self.hazard_selected = self.hazard_selected + 1;
                        }
                    },
                }
                (ArenaAction::Consumed, ArenaEffect::Nothing)
            },
            ArenaKey::Tab => {
                self.spawner_category = match self.spawner_category {
                    SpawnerCategory::Monster => SpawnerCategory::Item,
                    SpawnerCategory::Item => SpawnerCategory::Hazard,
                    SpawnerCategory::Hazard => SpawnerCategory::Monster,
                };
                (ArenaAction::Consumed, ArenaEffect::Nothing)
            },
            ArenaKey::Enter => (self.enter_action(), ArenaEffect::Nothing),
            _ => (ArenaAction::Ignore, ArenaEffect::Nothing),
        }
    }
}

} // verus!
