use omega_tools::audit::audit_report_at;
use omega_tools::guard::{
    bevy_check, bevy_floor_fill_present, bootstrap_check, catalog_check, guard_checks, guard_markdown,
    guard_report, is_placeholder_name, normalize_newlines, placeholder_catalog_names, tui_check,
    tui_synthetic_fill_present, BootstrapOutcome, GuardEvidence,
};

fn names(v: &[&str]) -> Vec<String> {
    v.iter().map(|s| s.to_string()).collect()
}

const TUI_FILL: &str = "let ch = if known {\r\n                glyph\r\n            } else {\r\n                '.'\r\n            };";

#[test]
fn newlines_are_normalized() {
    assert_eq!(normalize_newlines("a\r\nb\rc\r\n"), "a\nb\rc\n");
    assert_eq!(normalize_newlines(""), "");
}

#[test]
fn placeholder_names_by_prefix() {
    assert!(is_placeholder_name("spell-3"));
    assert!(is_placeholder_name("artifact-1"));
    assert!(!is_placeholder_name("magic missile"));
    assert!(!is_placeholder_name("a spell-3"));
    let ps = placeholder_catalog_names(&names(&["rat", "trap-1", "goblin", "ring-4"]));
    assert_eq!(ps, names(&["trap-1", "ring-4"]));
}

#[test]
fn catalog_check_samples_first_eight() {
    let ok = catalog_check(&Vec::new());
    assert!(ok.pass);
    assert_eq!(ok.details, "no placeholder-prefixed catalog entries detected");
    let many: Vec<String> = (1..=10).map(|i| format!("spell-{i}")).collect();
    let bad = catalog_check(&many);
    assert!(!bad.pass);
    assert_eq!(
        bad.details,
        "placeholder entries detected (count=10): spell-1, spell-2, spell-3, spell-4, spell-5, spell-6, spell-7, spell-8"
    );
}

#[test]
fn renderer_signatures() {
    assert!(tui_synthetic_fill_present(TUI_FILL));
    assert!(!tui_synthetic_fill_present("'.'"));
    assert!(!tui_check(TUI_FILL).pass);
    assert_eq!(tui_check("").details, "no dot-fill renderer signature detected");
    let bevy = "for y in 0..state.bounds.height {\n for x in 0..state.bounds.width {\n tiles.push(Tile { kind: TileKind::Floor });";
    assert!(bevy_floor_fill_present(bevy));
    assert!(!bevy_floor_fill_present("for y in 0..state.bounds.height"));
    let c = bevy_check(bevy);
    assert!(!c.pass);
    assert_eq!(c.details, "full-bounds floor-fill projection signature detected");
}

#[test]
fn bootstrap_outcomes() {
    let clean = BootstrapOutcome::Loaded {
        map_source: "city.map".to_string(),
        player_spawn_source: "legacy".to_string(),
        monster_spawns: 3,
        item_spawns: 2,
        monster_names: names(&["guard"]),
        item_names: names(&["apple"]),
    };
    let c = bootstrap_check(&clean);
    assert!(c.pass);
    assert_eq!(c.details, "bootstrap source=city.map spawn=legacy monsters=3 items=2");
    let dirty = BootstrapOutcome::Loaded {
        map_source: "m".to_string(),
        player_spawn_source: "s".to_string(),
        monster_spawns: 1,
        item_spawns: 1,
        monster_names: names(&["legacy-monster-1", "rat", "legacy-guardian"]),
        item_names: names(&["legacy-item-9"]),
    };
    let d = bootstrap_check(&dirty);
    assert!(!d.pass);
    assert_eq!(
        d.details,
        "placeholder bootstrap entities detected monsters=[legacy-monster-1, legacy-guardian] items=[legacy-item-9]"
    );
    let failed = bootstrap_check(&BootstrapOutcome::Failed { error: "no map".to_string() });
    assert!(!failed.pass);
    assert_eq!(failed.details, "bootstrap load failed: no map");
}

#[test]
fn guard_report_and_markdown() {
    let e = GuardEvidence {
        placeholder_names: Vec::new(),
        bootstrap: BootstrapOutcome::Failed { error: "x".to_string() },
        tui_source: String::new(),
        bevy_source: String::new(),
    };
    let checks = guard_checks(&e);
    assert_eq!(checks.len(), 4);
    let r = audit_report_at(checks, "unix:2".to_string());
    assert_eq!(r.passed, 3);
    assert_eq!(
        guard_markdown(&r),
        "# Recovery Contract Guard\n\n- Generated: unix:2\n- Status: FAIL\n- Checks: 3/4 pass\n\n\
| Check | Status | Details |\n|---|---|---|\n\
| catalogs_no_placeholder_entries | PASS | no placeholder-prefixed catalog entries detected |\n\
| bootstrap_no_placeholder_entities | FAIL | bootstrap load failed: x |\n\
| tui_renderer_not_synthetic_dot_fill | PASS | no dot-fill renderer signature detected |\n\
| bevy_renderer_not_floor_fill_projection | PASS | no full-bounds floor-fill projection signature detected |\n"
    );
    let stamped = guard_report(&e);
    assert_eq!(stamped.status, "FAIL");
}
