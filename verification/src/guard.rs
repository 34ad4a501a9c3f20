//! The recovery contract guard: no placeholder entries in the catalogs or
//! in the bootstrapped game, and no synthetic fill in the renderers.
use vstd::prelude::*;

use crate::audit::{audit_check_view, audit_check_views, audit_report_at, is_audit_report_of, AuditCheck, AuditCheckView, AuditReport};
use crate::clock::{now_utc_unix, spec_unix_stamp};
use crate::text::{chars_of, contains_str, extend, extend_str, join, push_dec, spec_contains, spec_dec, spec_join, spec_starts_with, starts_with_str, string_of};

verus! {

broadcast use crate::views::group_view_lemmas;

/// `str::replace("\r\n", "\n")`.
pub open spec fn spec_normalize_newlines(s: Seq<char>) -> Seq<char>
    decreases s.len(),
{
    if s.len() == 0 {
        Seq::empty()
    } else if s.len() >= 2 && s[0] == '\r' && s[1] == '\n' {
        seq!['\n'] + spec_normalize_newlines(s.skip(2))
    } else {
        seq![s[0]] + spec_normalize_newlines(s.skip(1))
    }
}

pub fn normalize_newlines(raw: &str) -> (r: String)
    ensures
        r@ == spec_normalize_newlines(raw@),
{
    let s = chars_of(raw);
    let mut out: Vec<char> = Vec::new();
    let mut i: usize = 0;
    assert(s@.skip(0) =~= s@);
    while i < s.len()
        invariant
            i <= s.len(),
            out@ + spec_normalize_newlines(s@.skip(i as int)) == spec_normalize_newlines(s@),
        decreases s.len() - i,
    {
        let ghost rest = s@.skip(i as int);
        if i + 1 < s.len() && s[i] == '\r' && s[i + 1] == '\n' {
            out.push('\n');
            assert(rest.skip(2) =~= s@.skip(i + 2));
            assert(out@ + spec_normalize_newlines(s@.skip(i + 2)) =~= spec_normalize_newlines(s@)) by {
                assert(spec_normalize_newlines(rest) == seq!['\n'] + spec_normalize_newlines(rest.skip(2)));
            }
            i = i + 2;
        } else {
            out.push(s[i]);
            assert(rest.skip(1) =~= s@.skip(i + 1));
            assert(out@ + spec_normalize_newlines(s@.skip(i + 1)) =~= spec_normalize_newlines(s@)) by {
                assert(spec_normalize_newlines(rest) == seq![s@[i as int]] + spec_normalize_newlines(rest.skip(1)));
            }
            i = i + 1;
        }
    }
    assert(out@ + spec_normalize_newlines(s@.skip(i as int)) =~= out@);
    string_of(&out)
}

/// The prefixes of the names that catalog generators give placeholder
/// entries.
pub open spec fn spec_placeholder_prefixes() -> Seq<Seq<char>> {
    seq![
        "spell-"@, "monster-"@, "trap-"@, "city-site-"@, "scroll-"@, "potion-"@, "food-"@, "weapon-"@,
        "armor-"@, "shield-"@, "cloak-"@, "boots-"@, "ring-"@, "stick-"@, "artifact-"@,
    ]
}

pub open spec fn spec_is_placeholder_name(name: Seq<char>) -> bool {
    exists|i: int| 0 <= i < spec_placeholder_prefixes().len() && spec_starts_with(name, #[trigger] spec_placeholder_prefixes()[i])
}

pub fn is_placeholder_name(name: &str) -> (r: bool)
    ensures
        r == spec_is_placeholder_name(name@),
{
    let n = chars_of(name);
    let prefixes = vec![
        "spell-", "monster-", "trap-", "city-site-", "scroll-", "potion-", "food-", "weapon-", "armor-",
        "shield-", "cloak-", "boots-", "ring-", "stick-", "artifact-",
    ];
    let ghost target = spec_placeholder_prefixes();
    assert(Seq::new(prefixes@.len(), |i: int| prefixes@[i]@) =~= target);
    let mut i: usize = 0;
    while i < prefixes.len()
        invariant
            i <= prefixes.len(),
            n@ == name@,
            target == spec_placeholder_prefixes(),
            prefixes@.len() == target.len(),
            forall|k: int| 0 <= k < prefixes@.len() ==> prefixes@[k]@ == target[k],
            forall|k: int| 0 <= k < i ==> !spec_starts_with(name@, #[trigger] target[k]),
        decreases prefixes.len() - i,
    {
        if starts_with_str(&n, prefixes[i]) {
            assert(spec_starts_with(name@, target[i as int]));
            return true;
        }
        i = i + 1;
    }
    false
}

pub open spec fn names_view(v: Seq<String>) -> Seq<Seq<char>> {
    Seq::new(v.len(), |i: int| v[i]@)
}

/// The names that are placeholders, in order.
pub open spec fn spec_placeholder_names(names: Seq<Seq<char>>) -> Seq<Seq<char>>
    decreases names.len(),
{
    if names.len() == 0 {
        Seq::empty()
    } else if spec_is_placeholder_name(names.last()) {
        spec_placeholder_names(names.drop_last()).push(names.last())
    } else {
        spec_placeholder_names(names.drop_last())
    }
}

/// The catalog names (spells, monsters, traps, city sites and every item
/// family, in that order) that are placeholders.
pub fn placeholder_catalog_names(names: &Vec<String>) -> (r: Vec<String>)
    ensures
        names_view(r@) == spec_placeholder_names(names_view(names@)),
{
    let ghost nv = names_view(names@);
    let mut out: Vec<String> = Vec::new();
    let mut i: usize = 0;
    while i < names.len()
        invariant
            i <= names.len(),
            nv == names_view(names@),
            names_view(out@) == spec_placeholder_names(nv.take(i as int)),
        decreases names.len() - i,
    {
        assert(nv.take(i + 1).drop_last() =~= nv.take(i as int));
        if is_placeholder_name(names[i].as_str()) {
            let ghost before = names_view(out@);
            out.push(names[i].clone());
            assert(names_view(out@) =~= before.push(nv[i as int]));
        }
        i = i + 1;
    }
    assert(nv.take(names.len() as int) =~= nv);
    out
}

/// The catalog check: no placeholder entry; on failure, their number and
/// the first eight of them.
pub open spec fn spec_catalog_check(placeholders: Seq<Seq<char>>) -> AuditCheckView {
    AuditCheckView {
        id: "catalogs_no_placeholder_entries"@,
        pass: placeholders.len() == 0,
        details: if placeholders.len() == 0 {
            "no placeholder-prefixed catalog entries detected"@
        } else {
            "placeholder entries detected (count="@ + spec_dec(placeholders.len()) + "): "@ + spec_join(
                placeholders.take(if placeholders.len() < 8 { placeholders.len() as int } else { 8 }),
                ", "@,
            )
        },
    }
}

fn text(s: &str) -> (r: String)
    ensures
        r@ == s@,
{
    string_of(&chars_of(s))
}

/// The first `n` texts, as characters.
fn first_texts(v: &Vec<String>, n: usize) -> (r: Vec<Vec<char>>)
    ensures
        r.deep_view() == names_view(v@).take(if v.len() < n { v.len() as int } else { n as int }),
{
    let m = if v.len() < n {
        v.len()
    } else {
        n
    };
    let mut out: Vec<Vec<char>> = Vec::new();
    let mut i: usize = 0;
    while i < m
        invariant
            i <= m,
            m <= v.len(),
            out.deep_view() == names_view(v@).take(i as int),
        decreases m - i,
    {
        let ghost before = out.deep_view();
        out.push(chars_of(v[i].as_str()));
        assert(out.deep_view() =~= before.push(names_view(v@)[i as int]));
        assert(names_view(v@).take(i + 1) =~= names_view(v@).take(i as int).push(names_view(v@)[i as int]));
        i = i + 1;
    }
    out
}

pub fn catalog_check(placeholders: &Vec<String>) -> (r: AuditCheck)
    ensures
        audit_check_view(r) == spec_catalog_check(names_view(placeholders@)),
{
    if placeholders.len() == 0 {
        return AuditCheck {
            id: text("catalogs_no_placeholder_entries"),
            pass: true,
            details: text("no placeholder-prefixed catalog entries detected"),
        };
    }
    let sample = first_texts(placeholders, 8);
    let mut d = chars_of("placeholder entries detected (count=");
    push_dec(&mut d, placeholders.len() as u64);
    extend_str(&mut d, "): ");
    let sep = chars_of(", ");
    let joined = join(&sample, &sep);
    extend(&mut d, &joined);
    AuditCheck { id: text("catalogs_no_placeholder_entries"), pass: false, details: string_of(&d) }
}

/// Whether the terminal renderer fills the map with dots.
pub open spec fn spec_tui_synthetic_fill(source: Seq<char>) -> bool {
    spec_contains(spec_normalize_newlines(source), "} else {\n                '.'\n            };"@)
}

pub fn tui_synthetic_fill_present(source: &str) -> (r: bool)
    ensures
        r == spec_tui_synthetic_fill(source@),
{
    let n = chars_of(normalize_newlines(source).as_str());
    contains_str(&n, "} else {\n                '.'\n            };")
}

/// Whether the graphical renderer projects floor over the whole map.
pub open spec fn spec_bevy_floor_fill(source: Seq<char>) -> bool {
    let n = spec_normalize_newlines(source);
    spec_contains(n, "for y in 0..state.bounds.height"@) && spec_contains(n, "for x in 0..state.bounds.width"@)
        && spec_contains(n, "kind: TileKind::Floor"@)
}

pub fn bevy_floor_fill_present(source: &str) -> (r: bool)
    ensures
        r == spec_bevy_floor_fill(source@),
{
    let n = chars_of(normalize_newlines(source).as_str());
    contains_str(&n, "for y in 0..state.bounds.height") && contains_str(&n, "for x in 0..state.bounds.width")
        && contains_str(&n, "kind: TileKind::Floor")
}

pub open spec fn spec_tui_check(source: Seq<char>) -> AuditCheckView {
    AuditCheckView {
        id: "tui_renderer_not_synthetic_dot_fill"@,
        pass: !spec_tui_synthetic_fill(source),
        details: if spec_tui_synthetic_fill(source) {
            "synthetic dot-fill renderer signature detected in map panel"@
        } else {
            "no dot-fill renderer signature detected"@
        },
    }
}

pub fn tui_check(source: &str) -> (r: AuditCheck)
    ensures
        audit_check_view(r) == spec_tui_check(source@),
{
    let fill = tui_synthetic_fill_present(source);
    AuditCheck {
        id: text("tui_renderer_not_synthetic_dot_fill"),
        pass: !fill,
        details: if fill {
            text("synthetic dot-fill renderer signature detected in map panel")
        } else {
            text("no dot-fill renderer signature detected")
        },
    }
}

pub open spec fn spec_bevy_check(source: Seq<char>) -> AuditCheckView {
    AuditCheckView {
        id: "bevy_renderer_not_floor_fill_projection"@,
        pass: !spec_bevy_floor_fill(source),
        details: if spec_bevy_floor_fill(source) {
            "full-bounds floor-fill projection signature detected"@
        } else {
            "no full-bounds floor-fill projection signature detected"@
        },
    }
}

pub fn bevy_check(source: &str) -> (r: AuditCheck)
    ensures
        audit_check_view(r) == spec_bevy_check(source@),
{
    let fill = bevy_floor_fill_present(source);
    AuditCheck {
        id: text("bevy_renderer_not_floor_fill_projection"),
        pass: !fill,
        details: if fill {
            text("full-bounds floor-fill projection signature detected")
        } else {
            text("no full-bounds floor-fill projection signature detected")
        },
    }
}

/// What loading the default content gave: the diagnostics and the names of
/// the spawned monsters and ground items, or the error.
#[derive(Debug, Clone)]
pub enum BootstrapOutcome {
    Loaded {
        map_source: String,
        player_spawn_source: String,
        monster_spawns: usize,
        item_spawns: usize,
        monster_names: Vec<String>,
        item_names: Vec<String>,
    },
    Failed { error: String },
}

pub open spec fn spec_placeholder_monster(name: Seq<char>) -> bool {
    spec_starts_with(name, "legacy-monster-"@) || spec_starts_with(name, "legacy-guardian"@)
}

pub open spec fn spec_placeholder_item(name: Seq<char>) -> bool {
    spec_starts_with(name, "legacy-item-"@)
}

/// The names with the given kind of placeholder, in order.
pub open spec fn spec_filter_names(names: Seq<Seq<char>>, monsters: bool) -> Seq<Seq<char>>
    decreases names.len(),
{
    if names.len() == 0 {
        Seq::empty()
    } else if (if monsters { spec_placeholder_monster(names.last()) } else { spec_placeholder_item(names.last()) }) {
        spec_filter_names(names.drop_last(), monsters).push(names.last())
    } else {
        spec_filter_names(names.drop_last(), monsters)
    }
}

fn filter_names(names: &Vec<String>, monsters: bool) -> (r: Vec<String>)
    ensures
        names_view(r@) == spec_filter_names(names_view(names@), monsters),
{
    let ghost nv = names_view(names@);
    let mut out: Vec<String> = Vec::new();
    let mut i: usize = 0;
    while i < names.len()
        invariant
            i <= names.len(),
            nv == names_view(names@),
            names_view(out@) == spec_filter_names(nv.take(i as int), monsters),
        decreases names.len() - i,
    {
        assert(nv.take(i + 1).drop_last() =~= nv.take(i as int));
        let n = chars_of(names[i].as_str());
        let hit = if monsters {
            starts_with_str(&n, "legacy-monster-") || starts_with_str(&n, "legacy-guardian")
        } else {
            starts_with_str(&n, "legacy-item-")
        };
        if hit {
            let ghost before = names_view(out@);
            out.push(names[i].clone());
            assert(names_view(out@) =~= before.push(nv[i as int]));
        }
        i = i + 1;
    }
    assert(nv.take(names.len() as int) =~= nv);
    out
}

pub open spec fn spec_first4(v: Seq<Seq<char>>) -> Seq<Seq<char>> {
    v.take(if v.len() < 4 { v.len() as int } else { 4 })
}

/// The bootstrap check: the bootstrapped game spawns no placeholder
/// monster or item.
pub open spec fn spec_bootstrap_check(o: BootstrapOutcome) -> AuditCheckView {
    match o {
        BootstrapOutcome::Loaded { map_source, player_spawn_source, monster_spawns, item_spawns, monster_names, item_names } => {
            let pm = spec_filter_names(names_view(monster_names@), true);
            let pi = spec_filter_names(names_view(item_names@), false);
            let pass = pm.len() == 0 && pi.len() == 0;
            AuditCheckView {
                id: "bootstrap_no_placeholder_entities"@,
                pass,
                details: if pass {
                    "bootstrap source="@ + map_source@ + " spawn="@ + player_spawn_source@ + " monsters="@
                        + spec_dec(monster_spawns as nat) + " items="@ + spec_dec(item_spawns as nat)
                } else {
                    "placeholder bootstrap entities detected monsters=["@ + spec_join(spec_first4(pm), ", "@)
                        + "] items=["@ + spec_join(spec_first4(pi), ", "@) + "]"@
                },
            }
        },
        BootstrapOutcome::Failed { error } => AuditCheckView {
            id: "bootstrap_no_placeholder_entities"@,
            pass: false,
            details: "bootstrap load failed: "@ + error@,
        },
    }
}

pub fn bootstrap_check(o: &BootstrapOutcome) -> (r: AuditCheck)
    ensures
        audit_check_view(r) == spec_bootstrap_check(*o),
{
    match o {
        BootstrapOutcome::Loaded { map_source, player_spawn_source, monster_spawns, item_spawns, monster_names, item_names } => {
            let pm = filter_names(monster_names, true);
            let pi = filter_names(item_names, false);
            let pass = pm.len() == 0 && pi.len() == 0;
            let d = if pass {
                let mut d = chars_of("bootstrap source=");
                extend_str(&mut d, map_source.as_str());
                extend_str(&mut d, " spawn=");
                extend_str(&mut d, player_spawn_source.as_str());
                extend_str(&mut d, " monsters=");
                push_dec(&mut d, *monster_spawns as u64);
                extend_str(&mut d, " items=");
                push_dec(&mut d, *item_spawns as u64);
                d
            } else {
                let sep = chars_of(", ");
                let mut d = chars_of("placeholder bootstrap entities detected monsters=[");
                let ms = join(&first_texts(&pm, 4), &sep);
                extend(&mut d, &ms);
                extend_str(&mut d, "] items=[");
                let is = join(&first_texts(&pi, 4), &sep);
                extend(&mut d, &is);
                extend_str(&mut d, "]");
                d
            };
            AuditCheck { id: text("bootstrap_no_placeholder_entities"), pass, details: string_of(&d) }
        },
        BootstrapOutcome::Failed { error } => {
            let mut d = chars_of("bootstrap load failed: ");
            extend_str(&mut d, error.as_str());
            AuditCheck { id: text("bootstrap_no_placeholder_entities"), pass: false, details: string_of(&d) }
        },
    }
}

/// What the guard reads: the placeholder catalog names, the bootstrap
/// outcome and the two renderers' sources.
pub struct GuardEvidence {
    pub placeholder_names: Vec<String>,
    pub bootstrap: BootstrapOutcome,
    pub tui_source: String,
    pub bevy_source: String,
}

/// The checks of the guard, in order.
pub open spec fn spec_guard_checks(e: GuardEvidence) -> Seq<AuditCheckView> {
    seq![
        spec_catalog_check(names_view(e.placeholder_names@)),
        spec_bootstrap_check(e.bootstrap),
        spec_tui_check(e.tui_source@),
        spec_bevy_check(e.bevy_source@),
    ]
}

pub fn guard_checks(e: &GuardEvidence) -> (r: Vec<AuditCheck>)
    ensures
        audit_check_views(r@) == spec_guard_checks(*e),
{
    let r = vec![
        catalog_check(&e.placeholder_names),
        bootstrap_check(&e.bootstrap),
        tui_check(e.tui_source.as_str()),
        bevy_check(e.bevy_source.as_str()),
    ];
    assert(audit_check_views(r@) =~= spec_guard_checks(*e));
    r
}

/// The guard report, stamped with the current time.
pub fn guard_report(e: &GuardEvidence) -> (r: AuditReport)
    ensures
        is_audit_report_of(r, spec_guard_checks(*e)),
        exists|secs: u64| r.generated_at_utc@ == spec_unix_stamp(secs as nat),
{
    let checks = guard_checks(e);
    let stamp = now_utc_unix();
    audit_report_at(checks, stamp)
}

/// The Markdown rendering of a guard report.
pub open spec fn spec_guard_markdown(r: AuditReport) -> Seq<char> {
    "# Recovery Contract Guard\n\n- Generated: "@ + r.generated_at_utc@ + "\n- Status: "@ + r.status@
        + "\n- Checks: "@ + spec_dec(r.passed as nat) + "/"@ + spec_dec(r.total as nat)
        + " pass\n\n| Check | Status | Details |\n|---|---|---|\n"@ + crate::audit::spec_audit_rows_md(
        audit_check_views(r.checks@),
    )
}

pub fn guard_markdown(r: &AuditReport) -> (md: String)
    ensures
        md@ == spec_guard_markdown(*r),
{
    let mut out: Vec<char> = Vec::new();
    extend_str(&mut out, "# Recovery Contract Guard\n\n- Generated: ");
    extend_str(&mut out, r.generated_at_utc.as_str());
    extend_str(&mut out, "\n- Status: ");
    extend_str(&mut out, r.status.as_str());
    extend_str(&mut out, "\n- Checks: ");
    push_dec(&mut out, r.passed as u64);
    extend_str(&mut out, "/");
    push_dec(&mut out, r.total as u64);
    extend_str(&mut out, " pass\n\n| Check | Status | Details |\n|---|---|---|\n");
    let ghost head = out@;
    let ghost v = audit_check_views(r.checks@);
    let mut i: usize = 0;
    while i < r.checks.len()
        invariant
            i <= r.checks.len(),
            v == audit_check_views(r.checks@),
            out@ == head + crate::audit::spec_audit_rows_md(v.take(i as int)),
        decreases r.checks.len() - i,
    {
        assert(v.take(i + 1).drop_last() =~= v.take(i as int));
        crate::audit::push_audit_row(&mut out, &r.checks[i]);
        i = i + 1;
    }
    assert(v.take(r.checks.len() as int) =~= v);
    string_of(&out)
}

} // verus!
