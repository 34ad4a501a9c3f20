//! The checks of the startup and overworld probes: what each probe of the
//! game engine observed, judged and written up.
//!
//! The engine runs the probes; enumerated engine values arrive by their
//! `Debug` names.
use vstd::prelude::*;

use crate::events::GameEvent;
use crate::recovery::{check_views, CheckView};
use crate::refresh::MatrixCheck;
use crate::replay::GridPosition;
use crate::reports::{push_bool, spec_bool_text};
use crate::text::{
    chars_eq_str, chars_of, contains_str, ends_with_str, extend_str, push_dec, push_int, spec_contains, spec_dec, spec_ends_with, spec_int,
    string_of,
};

verus! {

pub(crate) fn check(id: &str, passed: bool, details: Vec<char>) -> (r: MatrixCheck)
    ensures
        check_views(seq![r])[0] == (CheckView { id: id@, passed, details: details@ }),
{
    MatrixCheck { id: string_of(&chars_of(id)), passed, details: string_of(&details) }
}

/// `(x, y)`.
pub open spec fn spec_point(p: GridPosition) -> Seq<char> {
    "("@ + spec_int(p.x as int) + ", "@ + spec_int(p.y as int) + ")"@
}

pub(crate) fn push_point(out: &mut Vec<char>, p: GridPosition)
    ensures
        final(out)@ == old(out)@ + spec_point(p),
{
    extend_str(out, "(");
    push_int(out, p.x as i64);
    extend_str(out, ", ");
    push_int(out, p.y as i64);
    extend_str(out, ")");
    assert(out@ =~= old(out)@ + spec_point(p));
}

// ---------------------------------------------------------------------------
// Startup
// ---------------------------------------------------------------------------

/// What bumping the startup map's first closed door observed.
#[derive(Debug, Clone)]
pub enum DoorProbe {
    /// No closed door has a walkable neighbour.
    NoDoor,
    /// The door's walkable neighbour is not a cardinal step away.
    NoDirection,
    /// The player stepped from `from` into the door.
    Stepped { from: GridPosition, door: GridPosition, opened: bool, moved: bool, events: u64 },
}

/// The door check passes when the bump opened the door and moved the
/// player onto it.
pub open spec fn spec_door_check(id: Seq<char>, p: DoorProbe) -> CheckView {
    match p {
        DoorProbe::NoDoor => CheckView { id, passed: false, details: "no bump-openable closed door found in startup map"@ },
        DoorProbe::NoDirection => CheckView {
            id,
            passed: false,
            details: "found door but no adjacent cardinal bump direction"@,
        },
        DoorProbe::Stepped { from, door, opened, moved, events } => CheckView {
            id,
            passed: opened && moved,
            details: "from="@ + spec_point(from) + " door="@ + spec_point(door) + " opened="@ + spec_bool_text(opened)
                + " moved="@ + spec_bool_text(moved) + " events="@ + spec_dec(events as nat),
        },
    }
}

pub fn startup_door_check(id: &str, p: &DoorProbe) -> (r: MatrixCheck)
    ensures
        check_views(seq![r])[0] == spec_door_check(id@, *p),
{
    match p {
        DoorProbe::NoDoor => check(id, false, chars_of("no bump-openable closed door found in startup map")),
        DoorProbe::NoDirection => check(id, false, chars_of("found door but no adjacent cardinal bump direction")),
        DoorProbe::Stepped { from, door, opened, moved, events } => {
            let mut d = chars_of("from=");
            push_point(&mut d, *from);
            extend_str(&mut d, " door=");
            push_point(&mut d, *door);
            extend_str(&mut d, " opened=");
            push_bool(&mut d, *opened);
            extend_str(&mut d, " moved=");
            push_bool(&mut d, *moved);
            extend_str(&mut d, " events=");
            push_dec(&mut d, *events);
            check(id, *opened && *moved, d)
        },
    }
}

/// The choice made at a service's menu: the arena's second option, the
/// first anywhere else.
pub fn service_choice(aux: i32, arena_aux: i32) -> (r: &'static str)
    ensures
        r@ == (if aux == arena_aux { "2"@ } else { "1"@ }),
{
    if aux == arena_aux {
        "2"
    } else {
        "1"
    }
}

/// What entering the startup map's first service and making its choice
/// observed: the service's tile code, whether the interaction opened,
/// whether the state changed, the gold, bank, pack size and environment
/// before and after, and the events of the choice.
#[derive(Debug, Clone)]
pub enum ServiceProbe {
    NoService,
    Stepped {
        aux: i32,
        opened: bool,
        changed: bool,
        gold_before: i32,
        gold_after: i32,
        bank_before: i32,
        bank_after: i32,
        inventory_before: u64,
        inventory_after: u64,
        environment_before: String,
        environment_after: String,
        choose_events: u64,
    },
}

pub open spec fn spec_service_check(id: Seq<char>, p: ServiceProbe) -> CheckView {
    match p {
        ServiceProbe::NoService => CheckView { id, passed: false, details: "no service tile found on startup map"@ },
        ServiceProbe::Stepped { aux, opened, changed, gold_before, gold_after, bank_before, bank_after, inventory_before, inventory_after, environment_before, environment_after, choose_events } => CheckView {
            id,
            passed: opened && changed,
            details: "aux="@ + spec_int(aux as int) + " opened="@ + spec_bool_text(opened) + " changed="@ + spec_bool_text(
                changed,
            ) + " gold "@ + spec_int(gold_before as int) + "->"@ + spec_int(gold_after as int) + " bank "@ + spec_int(bank_before as int)
                + "->"@ + spec_int(bank_after as int) + " inv "@ + spec_dec(inventory_before as nat) + "->"@ + spec_dec(
                inventory_after as nat,
            ) + " env "@ + environment_before@ + "->"@ + environment_after@ + " choose_events="@ + spec_dec(choose_events as nat),
        },
    }
}

/// The service check passes when the interaction opened and the choice
/// changed the state.
pub fn startup_service_check(id: &str, p: &ServiceProbe) -> (r: MatrixCheck)
    ensures
        check_views(seq![r])[0] == spec_service_check(id@, *p),
{
    match p {
        ServiceProbe::NoService => check(id, false, chars_of("no service tile found on startup map")),
        ServiceProbe::Stepped { aux, opened, changed, gold_before, gold_after, bank_before, bank_after, inventory_before, inventory_after, environment_before, environment_after, choose_events } => {
            let mut d = chars_of("aux=");
            push_int(&mut d, *aux as i64);
            extend_str(&mut d, " opened=");
            push_bool(&mut d, *opened);
            extend_str(&mut d, " changed=");
            push_bool(&mut d, *changed);
            extend_str(&mut d, " gold ");
            push_int(&mut d, *gold_before as i64);
            extend_str(&mut d, "->");
            push_int(&mut d, *gold_after as i64);
            extend_str(&mut d, " bank ");
            push_int(&mut d, *bank_before as i64);
            extend_str(&mut d, "->");
            push_int(&mut d, *bank_after as i64);
            extend_str(&mut d, " inv ");
            push_dec(&mut d, *inventory_before);
            extend_str(&mut d, "->");
            push_dec(&mut d, *inventory_after);
            extend_str(&mut d, " env ");
            extend_str(&mut d, environment_before.as_str());
            extend_str(&mut d, "->");
            extend_str(&mut d, environment_after.as_str());
            extend_str(&mut d, " choose_events=");
            push_dec(&mut d, *choose_events);
            check(id, *opened && *changed, d)
        },
    }
}

/// What taking the startup map's countryside exit observed: the exit
/// tile, the world mode, environment and map semantic after it, and the
/// events.
#[derive(Debug, Clone)]
pub enum ExitProbe {
    NoExit,
    Stepped { exit: GridPosition, world: String, environment: String, semantic: String, events: u64 },
}

/// The exit check passes when the player is out in the countryside.
pub open spec fn spec_exit_check(id: Seq<char>, p: ExitProbe) -> CheckView {
    match p {
        ExitProbe::NoExit => CheckView { id, passed: false, details: "no countryside exit tile found in startup map"@ },
        ExitProbe::Stepped { exit, world, environment, semantic, events } => CheckView {
            id,
            passed: world@ == "Countryside"@ && environment@ == "Countryside"@ && semantic@ == "Country"@,
            details: "exit="@ + spec_point(exit) + " world="@ + world@ + " env="@ + environment@ + " semantic="@
                + semantic@ + " events="@ + spec_dec(events as nat),
        },
    }
}

pub fn startup_exit_check(id: &str, p: &ExitProbe) -> (r: MatrixCheck)
    ensures
        check_views(seq![r])[0] == spec_exit_check(id@, *p),
{
    match p {
        ExitProbe::NoExit => check(id, false, chars_of("no countryside exit tile found in startup map")),
        ExitProbe::Stepped { exit, world, environment, semantic, events } => {
            let passed = chars_eq_str(&chars_of(world.as_str()), "Countryside") && chars_eq_str(
                &chars_of(environment.as_str()),
                "Countryside",
            ) && chars_eq_str(&chars_of(semantic.as_str()), "Country");
            let mut d = chars_of("exit=");
            push_point(&mut d, *exit);
            extend_str(&mut d, " world=");
            extend_str(&mut d, world.as_str());
            extend_str(&mut d, " env=");
            extend_str(&mut d, environment.as_str());
            extend_str(&mut d, " semantic=");
            extend_str(&mut d, semantic.as_str());
            extend_str(&mut d, " events=");
            push_dec(&mut d, *events);
            check(id, passed, d)
        },
    }
}

/// Where a bootstrap put the player, its world mode and its city site.
#[derive(Debug, Clone)]
pub struct BootstrapProbe {
    pub spawn: GridPosition,
    pub world: String,
    pub city_site_id: u64,
}

pub open spec fn spec_city_context(b: BootstrapProbe) -> bool {
    b.world@ == "DungeonCity"@ && b.city_site_id == 1
}

/// The frontend bootstrap check: the player at the legacy start in the
/// city context.
pub open spec fn spec_frontend_context(id: Seq<char>, b: BootstrapProbe, start: GridPosition) -> CheckView {
    CheckView {
        id,
        passed: b.spawn == start && spec_city_context(b),
        details: "spawn=("@ + spec_int(b.spawn.x as int) + ", "@ + spec_int(b.spawn.y as int) + ") world="@ + b.world@
            + " city_site_id="@ + spec_dec(b.city_site_id as nat),
    }
}

/// The checks of the bootstraps themselves: the content loads the city
/// map, spawns at the legacy start and sets up the city context, and the
/// two frontends start in it too.
pub open spec fn spec_startup_context_checks(
    map_source: Seq<char>,
    expected_map_id: u16,
    spawn_source: Seq<char>,
    start: GridPosition,
    content: BootstrapProbe,
    tui: BootstrapProbe,
    bevy: BootstrapProbe,
) -> Seq<CheckView> {
    seq![
        CheckView {
            id: "content_map_is_city"@,
            passed: spec_ends_with(map_source, "city.map"@),
            details: "map_source="@ + map_source + " expected_map_id="@ + spec_dec(expected_map_id as nat),
        },
        CheckView {
            id: "content_spawn_matches_legacy"@,
            passed: content.spawn == start,
            details: "spawn=("@ + spec_int(content.spawn.x as int) + ", "@ + spec_int(content.spawn.y as int)
                + ") expected=("@ + spec_int(start.x as int) + ", "@ + spec_int(start.y as int) + ") source="@
                + spawn_source,
        },
        CheckView {
            id: "content_city_context"@,
            passed: spec_city_context(content),
            details: "world="@ + content.world@ + " city_site_id="@ + spec_dec(content.city_site_id as nat),
        },
        spec_frontend_context("tui_bootstrap_city_context"@, tui, start),
        spec_frontend_context("bevy_bootstrap_city_context"@, bevy, start),
    ]
}

fn city_context(b: &BootstrapProbe) -> (r: bool)
    ensures
        r == spec_city_context(*b),
{
    chars_eq_str(&chars_of(b.world.as_str()), "DungeonCity") && b.city_site_id == 1
}

fn frontend_context(id: &str, b: &BootstrapProbe, start: GridPosition) -> (r: MatrixCheck)
    ensures
        check_views(seq![r])[0] == spec_frontend_context(id@, *b, start),
{
    let mut d = chars_of("spawn=(");
    push_int(&mut d, b.spawn.x as i64);
    extend_str(&mut d, ", ");
    push_int(&mut d, b.spawn.y as i64);
    extend_str(&mut d, ") world=");
    extend_str(&mut d, b.world.as_str());
    extend_str(&mut d, " city_site_id=");
    push_dec(&mut d, b.city_site_id);
    let passed = b.spawn.x == start.x && b.spawn.y == start.y && city_context(b);
    check(id, passed, d)
}

pub fn startup_context_checks(
    map_source: &str,
    expected_map_id: u16,
    spawn_source: &str,
    start: GridPosition,
    content: &BootstrapProbe,
    tui: &BootstrapProbe,
    bevy: &BootstrapProbe,
) -> (r: Vec<MatrixCheck>)
    ensures
        check_views(r@) == spec_startup_context_checks(map_source@, expected_map_id, spawn_source@, start, *content, *tui, *bevy),
{
    let mut d1 = chars_of("map_source=");
    extend_str(&mut d1, map_source);
    extend_str(&mut d1, " expected_map_id=");
    push_dec(&mut d1, expected_map_id as u64);
    let c1 = check("content_map_is_city", ends_with_str(&chars_of(map_source), "city.map"), d1);
    let mut d2 = chars_of("spawn=(");
    push_int(&mut d2, content.spawn.x as i64);
    extend_str(&mut d2, ", ");
    push_int(&mut d2, content.spawn.y as i64);
    extend_str(&mut d2, ") expected=(");
    push_int(&mut d2, start.x as i64);
    extend_str(&mut d2, ", ");
    push_int(&mut d2, start.y as i64);
    extend_str(&mut d2, ") source=");
    extend_str(&mut d2, spawn_source);
    let c2 = check("content_spawn_matches_legacy", content.spawn.x == start.x && content.spawn.y == start.y, d2);
    let mut d3 = chars_of("world=");
    extend_str(&mut d3, content.world.as_str());
    extend_str(&mut d3, " city_site_id=");
    push_dec(&mut d3, content.city_site_id);
    let c3 = check("content_city_context", city_context(content), d3);
    let c4 = frontend_context("tui_bootstrap_city_context", tui, start);
    let c5 = frontend_context("bevy_bootstrap_city_context", bevy, start);
    let r = vec![c1, c2, c3, c4, c5];
    assert(check_views(r@) =~= spec_startup_context_checks(
        map_source@,
        expected_map_id,
        spawn_source@,
        start,
        *content,
        *tui,
        *bevy,
    ));
    r
}

// ---------------------------------------------------------------------------
// Overworld locations
// ---------------------------------------------------------------------------

/// An overworld entry to probe: the country terrain and, where it matters,
/// the tile code that picks the place; and the map, environment and map
/// semantic that entering it must give.
#[derive(Debug, Clone)]
pub struct LocationCase {
    pub id: String,
    pub terrain: String,
    pub aux: Option<u8>,
    pub expected_map: u16,
    pub expected_environment: String,
    pub expected_semantic: String,
}

pub struct LocationCaseView {
    pub id: Seq<char>,
    pub terrain: Seq<char>,
    pub aux: Option<u8>,
    pub expected_map: u16,
    pub expected_environment: Seq<char>,
    pub expected_semantic: Seq<char>,
}

pub open spec fn case_view(c: LocationCase) -> LocationCaseView {
    LocationCaseView {
        id: c.id@,
        terrain: c.terrain@,
        aux: c.aux,
        expected_map: c.expected_map,
        expected_environment: c.expected_environment@,
        expected_semantic: c.expected_semantic@,
    }
}

pub open spec fn case_views(v: Seq<LocationCase>) -> Seq<LocationCaseView> {
    Seq::new(v.len(), |i: int| case_view(v[i]))
}

pub open spec fn spec_case(id: Seq<char>, terrain: Seq<char>, map: u16, env: Seq<char>, semantic: Seq<char>) -> LocationCaseView {
    LocationCaseView { id, terrain, aux: None, expected_map: map, expected_environment: env, expected_semantic: semantic }
}

/// The legacy map of each of the six villages.
pub open spec fn spec_village_map(aux: u8) -> u16 {
    if aux == 1 {
        14
    } else if aux == 2 {
        19
    } else if aux == 3 {
        15
    } else if aux == 4 {
        17
    } else if aux == 5 {
        12
    } else if aux == 6 {
        18
    } else {
        0
    }
}

/// A village or temple entry: `<kind>_<aux>_entry`.
pub open spec fn spec_numbered_case(kind: Seq<char>, terrain: Seq<char>, aux: u8, map: u16) -> LocationCaseView {
    LocationCaseView {
        id: kind + "_"@ + spec_dec(aux as nat) + "_entry"@,
        terrain,
        aux: Some(aux),
        expected_map: map,
        expected_environment: terrain,
        expected_semantic: "Site"@,
    }
}

/// The overworld entries, in the order they are probed: the city, the
/// seven single sites, the six villages and the six temples.
pub open spec fn spec_location_cases() -> Seq<LocationCaseView> {
    seq![
        spec_case("city_entry"@, "City"@, 3, "City"@, "City"@),
        spec_case("castle_entry"@, "Castle"@, 5, "Castle"@, "Site"@),
        spec_case("palace_entry"@, "Palace"@, 5, "Palace"@, "Site"@),
        spec_case("caves_entry"@, "Caves"@, 2, "Caves"@, "Site"@),
        spec_case("volcano_entry"@, "Volcano"@, 4, "Volcano"@, "Site"@),
        spec_case("dragon_lair_entry"@, "DragonLair"@, 6, "DragonLair"@, "Site"@),
        spec_case("star_peak_entry"@, "StarPeak"@, 13, "StarPeak"@, "Site"@),
        spec_case("magic_isle_entry"@, "MagicIsle"@, 11, "MagicIsle"@, "Site"@),
    ] + Seq::new(6, |i: int| spec_numbered_case("village"@, "Village"@, (i + 1) as u8, spec_village_map((i + 1) as u8)))
        + Seq::new(6, |i: int| spec_numbered_case("temple"@, "Temple"@, (i + 1) as u8, 16))
}

fn text(s: &str) -> (r: String)
    ensures
        r@ == s@,
{
    string_of(&chars_of(s))
}

fn fixed_case(id: &str, terrain: &str, map: u16, env: &str, semantic: &str) -> (r: LocationCase)
    ensures
        case_view(r) == spec_case(id@, terrain@, map, env@, semantic@),
{
    LocationCase {
        id: text(id),
        terrain: text(terrain),
        aux: None,
        expected_map: map,
        expected_environment: text(env),
        expected_semantic: text(semantic),
    }
}

fn village_map(aux: u8) -> (r: u16)
    ensures
        r == spec_village_map(aux),
{
    if aux == 1 {
        14
    } else if aux == 2 {
        19
    } else if aux == 3 {
        15
    } else if aux == 4 {
        17
    } else if aux == 5 {
        12
    } else if aux == 6 {
        18
    } else {
        0
    }
}

fn numbered_case(kind: &str, terrain: &str, aux: u8, map: u16) -> (r: LocationCase)
    ensures
        case_view(r) == spec_numbered_case(kind@, terrain@, aux, map),
{
    let mut id = chars_of(kind);
    extend_str(&mut id, "_");
    push_dec(&mut id, aux as u64);
    extend_str(&mut id, "_entry");
    LocationCase {
        id: string_of(&id),
        terrain: text(terrain),
        aux: Some(aux),
        expected_map: map,
        expected_environment: text(terrain),
        expected_semantic: text("Site"),
    }
}

fn push_case(out: &mut Vec<LocationCase>, c: LocationCase)
    ensures
        case_views(final(out)@) == case_views(old(out)@).push(case_view(c)),
{
    let ghost before = case_views(out@);
    out.push(c);
    assert(case_views(out@) =~= before.push(case_view(c)));
}

pub fn location_cases() -> (r: Vec<LocationCase>)
    ensures
        case_views(r@) == spec_location_cases(),
{
    let ghost target = spec_location_cases();
    let mut out: Vec<LocationCase> = Vec::new();
    push_case(&mut out, fixed_case("city_entry", "City", 3, "City", "City"));
    push_case(&mut out, fixed_case("castle_entry", "Castle", 5, "Castle", "Site"));
    push_case(&mut out, fixed_case("palace_entry", "Palace", 5, "Palace", "Site"));
    push_case(&mut out, fixed_case("caves_entry", "Caves", 2, "Caves", "Site"));
    push_case(&mut out, fixed_case("volcano_entry", "Volcano", 4, "Volcano", "Site"));
    push_case(&mut out, fixed_case("dragon_lair_entry", "DragonLair", 6, "DragonLair", "Site"));
    push_case(&mut out, fixed_case("star_peak_entry", "StarPeak", 13, "StarPeak", "Site"));
    push_case(&mut out, fixed_case("magic_isle_entry", "MagicIsle", 11, "MagicIsle", "Site"));
    assert(case_views(out@) =~= target.take(8));
    let mut aux: u8 = 1;
    while aux <= 6
        invariant
            1 <= aux <= 7,
            target == spec_location_cases(),
            case_views(out@) == target.take(8 + aux - 1),
        decreases 7 - aux,
    {
        push_case(&mut out, numbered_case("village", "Village", aux, village_map(aux)));
        assert(target[8 + aux - 1] == spec_numbered_case("village"@, "Village"@, aux, spec_village_map(aux)));
        assert(case_views(out@) =~= target.take(8 + aux));
        aux = aux + 1;
    }
    let mut aux: u8 = 1;
    while aux <= 6
        invariant
            1 <= aux <= 7,
            target == spec_location_cases(),
            case_views(out@) == target.take(14 + aux - 1),
        decreases 7 - aux,
    {
        push_case(&mut out, numbered_case("temple", "Temple", aux, 16));
        assert(target[14 + aux - 1] == spec_numbered_case("temple"@, "Temple"@, aux, 16));
        assert(case_views(out@) =~= target.take(14 + aux));
        aux = aux + 1;
    }
    assert(target.len() == 20);
    assert(target.take(20) =~= target);
    out
}

/// The seed of a probe's random source: fixed per expected map.
pub fn location_seed(expected_map: u16) -> (r: u64)
    ensures
        r == 0x5151_0000 + expected_map,
{
    0x5151_0000u64 + expected_map as u64
}

/// What entering an overworld place observed: the place's position, the
/// turn and minutes the entry reported, and the map, environment and map
/// semantic after it; `Missing` when the country has no such place.
#[derive(Debug, Clone)]
pub enum LocationProbe {
    Missing,
    Entered { pos: GridPosition, out_turn: u64, out_minutes: u64, map: u16, environment: String, semantic: String },
}

/// `None` or `Some(n)`.
pub open spec fn spec_aux_text(aux: Option<u8>) -> Seq<char> {
    match aux {
        None => "None"@,
        Some(n) => "Some("@ + spec_dec(n as nat) + ")"@,
    }
}

/// The location check passes when entering gave the expected map,
/// environment and semantic.
pub open spec fn spec_location_check(c: LocationCaseView, p: LocationProbe) -> CheckView {
    match p {
        LocationProbe::Missing => CheckView {
            id: c.id,
            passed: false,
            details: "missing terrain "@ + c.terrain + " aux "@ + spec_aux_text(c.aux),
        },
        LocationProbe::Entered { pos, out_turn, out_minutes, map, environment, semantic } => CheckView {
            id: c.id,
            passed: map == c.expected_map && environment@ == c.expected_environment && semantic@ == c.expected_semantic,
            details: "pos="@ + spec_point(pos) + " out_turn="@ + spec_dec(out_turn as nat) + " out_minutes="@ + spec_dec(
                out_minutes as nat,
            ) + " map="@ + spec_dec(map as nat) + " env="@ + environment@ + " semantic="@ + semantic@,
        },
    }
}

pub fn location_check(c: &LocationCase, p: &LocationProbe) -> (r: MatrixCheck)
    ensures
        check_views(seq![r])[0] == spec_location_check(case_view(*c), *p),
{
    match p {
        LocationProbe::Missing => {
            let mut d = chars_of("missing terrain ");
            extend_str(&mut d, c.terrain.as_str());
            extend_str(&mut d, " aux ");
            match c.aux {
                None => extend_str(&mut d, "None"),
                Some(n) => {
                    extend_str(&mut d, "Some(");
                    push_dec(&mut d, n as u64);
                    extend_str(&mut d, ")");
                },
            }
            assert(d@ =~= "missing terrain "@ + c.terrain@ + " aux "@ + spec_aux_text(c.aux));
            check(c.id.as_str(), false, d)
        },
        LocationProbe::Entered { pos, out_turn, out_minutes, map, environment, semantic } => {
            let passed = *map == c.expected_map && chars_eq_str(&chars_of(environment.as_str()), c.expected_environment.as_str())
                && chars_eq_str(&chars_of(semantic.as_str()), c.expected_semantic.as_str());
            let mut d = chars_of("pos=");
            push_point(&mut d, *pos);
            extend_str(&mut d, " out_turn=");
            push_dec(&mut d, *out_turn);
            extend_str(&mut d, " out_minutes=");
            push_dec(&mut d, *out_minutes);
            extend_str(&mut d, " map=");
            push_dec(&mut d, *map as u64);
            extend_str(&mut d, " env=");
            extend_str(&mut d, environment.as_str());
            extend_str(&mut d, " semantic=");
            extend_str(&mut d, semantic.as_str());
            check(c.id.as_str(), passed, d)
        },
    }
}


// ---------------------------------------------------------------------------
// Startup visual proof
// ---------------------------------------------------------------------------

/// The engine answered the `M` probe from a no-city-move tile with a fully
/// modelled note that names `NOCITYMOVE`.
pub open spec fn spec_nocitymove_block(e: GameEvent) -> bool {
    match e {
        GameEvent::LegacyHandled { token, note, fully_modeled } => token@ == "M"@ && fully_modeled && spec_contains(
            note@,
            "NOCITYMOVE"@,
        ),
        _ => false,
    }
}

pub open spec fn spec_nocitymove_blocked(events: Seq<GameEvent>) -> bool {
    exists|i: int| 0 <= i < events.len() && spec_nocitymove_block(#[trigger] events[i])
}

fn nocitymove_blocked(events: &Vec<GameEvent>) -> (r: bool)
    ensures
        r == spec_nocitymove_blocked(events@),
{
    let mut i: usize = 0;
    while i < events.len()
        invariant
            i <= events.len(),
            forall|j: int| 0 <= j < i ==> !spec_nocitymove_block(#[trigger] events@[j]),
        decreases events.len() - i,
    {
        if let GameEvent::LegacyHandled { token, note, fully_modeled } = &events[i] {
            if chars_eq_str(&chars_of(token.as_str()), "M") && *fully_modeled && contains_str(
                &chars_of(note.as_str()),
                "NOCITYMOVE",
            ) {
                return true;
            }
        }
        i = i + 1;
    }
    false
}

/// What the startup visual proof observed of the bootstrapped state: where
/// the player starts and where the legacy start is, the non-void cells of
/// the map window, the wall and feature tiles of the sprite projection, the
/// rendered screen and the bootstrap's sources, the hit points around one
/// wait, and the city movement probe (whether a portcullis and a
/// no-city-move tile exist, whether the portcullis is walkable, and the
/// events of `M` from the no-city-move tile).
#[derive(Debug, Clone)]
pub struct VisualProbe {
    pub expected_start: GridPosition,
    pub start: GridPosition,
    pub non_void_glyphs: u64,
    pub walls: u64,
    pub features: u64,
    pub render: String,
    pub map_source: String,
    pub spawn_source: String,
    pub hp_before_wait: i32,
    pub hp_after_wait: i32,
    pub portcullis_present: bool,
    pub nocitymove_present: bool,
    pub portcullis_walkable: bool,
    pub movement_events: Vec<GameEvent>,
}

/// The six checks of the startup visual proof, in order.
pub open spec fn spec_visual_checks(p: VisualProbe) -> Seq<CheckView> {
    seq![
        CheckView {
            id: "player_starts_at_legacy_rampart_start"@,
            passed: p.start == p.expected_start,
            details: "expected="@ + spec_point(p.expected_start) + " actual="@ + spec_point(p.start),
        },
        CheckView {
            id: "map_window_is_not_void"@,
            passed: p.non_void_glyphs > 0,
            details: "non_void_glyph_cells="@ + spec_dec(p.non_void_glyphs as nat),
        },
        CheckView {
            id: "bevy_projection_has_non_floor_tiles"@,
            passed: p.walls > 0 || p.features > 0,
            details: "wall="@ + spec_dec(p.walls as nat) + " feature="@ + spec_dec(p.features as nat),
        },
        CheckView {
            id: "tui_render_contains_map_panel"@,
            passed: spec_contains(p.render@, "MAP"@),
            details: "bootstrap_source="@ + p.map_source@ + " spawn_source="@ + p.spawn_source@,
        },
        CheckView {
            id: "canonical_start_safe_initial_state"@,
            passed: p.hp_after_wait == p.hp_before_wait,
            details: "hp_before_wait="@ + spec_int(p.hp_before_wait as int) + " hp_after_wait="@ + spec_int(
                p.hp_after_wait as int,
            ),
        },
        CheckView {
            id: "city_movement_rules_enforced"@,
            passed: p.portcullis_present && p.nocitymove_present && !p.portcullis_walkable
                && spec_nocitymove_blocked(p.movement_events@),
            details: "portcullis_present="@ + spec_bool_text(p.portcullis_present) + " nocitymove_present="@
                + spec_bool_text(p.nocitymove_present),
        },
    ]
}

pub fn startup_visual_checks(p: &VisualProbe) -> (r: Vec<MatrixCheck>)
    ensures
        check_views(r@) == spec_visual_checks(*p),
{
    let mut d1 = chars_of("expected=");
    push_point(&mut d1, p.expected_start);
    extend_str(&mut d1, " actual=");
    push_point(&mut d1, p.start);
    let c1 = check(
        "player_starts_at_legacy_rampart_start",
        p.start.x == p.expected_start.x && p.start.y == p.expected_start.y,
        d1,
    );
    let mut d2 = chars_of("non_void_glyph_cells=");
    push_dec(&mut d2, p.non_void_glyphs);
    let c2 = check("map_window_is_not_void", p.non_void_glyphs > 0, d2);
    let mut d3 = chars_of("wall=");
    push_dec(&mut d3, p.walls);
    extend_str(&mut d3, " feature=");
    push_dec(&mut d3, p.features);
    let c3 = check("bevy_projection_has_non_floor_tiles", p.walls > 0 || p.features > 0, d3);
    let mut d4 = chars_of("bootstrap_source=");
    extend_str(&mut d4, p.map_source.as_str());
    extend_str(&mut d4, " spawn_source=");
    extend_str(&mut d4, p.spawn_source.as_str());
    let c4 = check("tui_render_contains_map_panel", contains_str(&chars_of(p.render.as_str()), "MAP"), d4);
    let mut d5 = chars_of("hp_before_wait=");
    push_int(&mut d5, p.hp_before_wait as i64);
    extend_str(&mut d5, " hp_after_wait=");
    push_int(&mut d5, p.hp_after_wait as i64);
    let c5 = check("canonical_start_safe_initial_state", p.hp_after_wait == p.hp_before_wait, d5);
    let mut d6 = chars_of("portcullis_present=");
    push_bool(&mut d6, p.portcullis_present);
    extend_str(&mut d6, " nocitymove_present=");
    push_bool(&mut d6, p.nocitymove_present);
    let enforced = p.portcullis_present && p.nocitymove_present && !p.portcullis_walkable && nocitymove_blocked(
        &p.movement_events,
    );
    let c6 = check("city_movement_rules_enforced", enforced, d6);
    let r = vec![c1, c2, c3, c4, c5, c6];
    assert(check_views(r@) =~= spec_visual_checks(*p));
    r
}

} // verus!
