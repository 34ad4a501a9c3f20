use omega_tools::fields::{FieldValue, JsonFields};
use omega_tools::recovery::{
    build_recovery_freeze, capture_between, capture_effect_note, differential_pass, expected_mana_spend,
    legacy_spell_costs, mapped_matrix_pass, placeholder_signatures, recovery_freeze_at, recovery_pass,
    recovery_required_artifacts, recovery_snapshot, spell_checks, spell_names_clean, RecoveryVerdicts, SpellCycle,
};
use omega_tools::recovery::{gap_ledger_at, spell_cycle_of, GapEvidence};

fn fields(entries: &[(&str, FieldValue)]) -> JsonFields {
    JsonFields { entries: entries.iter().map(|(k, v)| (k.to_string(), v.clone())).collect() }
}

fn names(v: &[&str]) -> Vec<String> {
    v.iter().map(|s| s.to_string()).collect()
}

#[test]
fn captures_between_markers() {
    assert_eq!(capture_between("You cast 'magic missile' at it", '\''), Some("magic missile".to_string()));
    assert_eq!(capture_between("no marker", '\''), None);
    assert_eq!(capture_between("one ' only", '\''), None);
    assert_eq!(capture_between("''", '\''), Some(String::new()));
}

#[test]
fn captures_last_parenthesised_note() {
    assert_eq!(capture_effect_note("cast (a) then (burning)"), Some("burning".to_string()));
    assert_eq!(capture_effect_note("empty ()"), None);
    assert_eq!(capture_effect_note("closed) before (open"), None);
    assert_eq!(capture_effect_note("no note"), None);
}

#[test]
fn legacy_mana_profile() {
    let costs = legacy_spell_costs();
    assert_eq!(costs.len(), 42);
    assert_eq!(costs[0], 3);
    assert_eq!(costs[40], 100);
    assert_eq!(expected_mana_spend(), 1211);
}

#[test]
fn spell_checks_pass_on_full_cycle() {
    let good = SpellCycle {
        catalog_spells: 42,
        no_placeholders: true,
        unique_names: 42,
        all_modeled: true,
        observed_spend: 1211,
        effect_notes: 24,
    };
    let checks = spell_checks(&good);
    assert_eq!(checks.len(), 5);
    assert!(checks.iter().all(|c| c.passed));
    assert_eq!(checks[0].details, "legacy_catalog_spells=42");
    assert_eq!(checks[2].details, "unique_names=42 modeled=true");
    assert_eq!(checks[3].details, "observed_spend=1211 expected_spend=1211");
    assert_eq!(checks[4].details, "distinct_effect_notes=24");
    let bad = SpellCycle { observed_spend: -5, effect_notes: 23, all_modeled: false, ..good };
    let checks = spell_checks(&bad);
    assert!(!checks[2].passed);
    assert!(!checks[3].passed);
    assert_eq!(checks[3].details, "observed_spend=-5 expected_spend=1211");
    assert!(!checks[4].passed);
}

#[test]
fn placeholder_names_are_detected() {
    assert!(spell_names_clean(&names(&["magic missile", "firebolt"])));
    assert!(!spell_names_clean(&names(&["magic missile", "spell-12"])));
    assert!(!spell_names_clean(&names(&["legacy-monster-3"])));
    assert_eq!(placeholder_signatures(&names(&["Spell-1", "MONSTER-2", "rat", "legacy-monster-9", "a spell-"])), 3);
}

#[test]
fn verdicts_of_reports() {
    assert!(mapped_matrix_pass(&fields(&[("passed", FieldValue::Bool(true))])));
    assert!(mapped_matrix_pass(&fields(&[("pass", FieldValue::Bool(true))])));
    assert!(!mapped_matrix_pass(&fields(&[("pass", FieldValue::Unsigned(1))])));
    let replay_ok = fields(&[("failed", FieldValue::Unsigned(0))]);
    let det_ok = fields(&[("divergent_runs", FieldValue::Unsigned(0))]);
    assert!(differential_pass(&replay_ok, &det_ok));
    assert!(!differential_pass(&fields(&[]), &det_ok));
    assert!(!differential_pass(&replay_ok, &fields(&[("divergent_runs", FieldValue::Unsigned(3))])));
}

#[test]
fn recovery_baseline_and_verdict() {
    let required = recovery_required_artifacts();
    assert_eq!(required.len(), 15);
    assert_eq!(required[0], "target/recovery-gap-ledger.json");
    let a = recovery_snapshot("target/a.json", Some(120));
    assert!(a.present);
    assert_eq!(a.size_bytes, 120);
    let b = recovery_snapshot("target/b.json", None);
    assert!(!b.present);
    assert_eq!(b.size_bytes, 0);
    let f = recovery_freeze_at(vec![a.clone(), b], "unix:3".to_string());
    assert_eq!((f.total, f.present, f.missing), (2, 1, 1));
    assert_eq!(f.status, "FAIL");
    let ok = build_recovery_freeze(vec![a]);
    assert_eq!(ok.status, "PASS");
    let mut v = RecoveryVerdicts {
        gap: true,
        city_site: true,
        overworld: true,
        spell: true,
        item: true,
        combat_trap: true,
        progression: true,
        save_options: true,
        frontend: true,
        differential: true,
        burnin: true,
    };
    assert!(recovery_pass(&v, &ok));
    assert!(!recovery_pass(&v, &f));
    v.burnin = false;
    assert!(!recovery_pass(&v, &ok));
}

#[test]
fn spell_cycle_counts_distinct_names_and_effects() {
    let spells = names(&["magic missile", "healing"]);
    let casts = vec![
        Some(("You cast `magic missile` (burning)".to_string(), true)),
        Some(("You cast `magic missile` (burning)".to_string(), true)),
        Some(("You cast `healing` (mended)".to_string(), false)),
        None,
    ];
    let c = spell_cycle_of(&spells, &casts, 40);
    assert_eq!(c.catalog_spells, 2);
    assert!(c.no_placeholders);
    assert_eq!(c.unique_names, 2);
    assert_eq!(c.effect_notes, 2);
    assert!(!c.all_modeled);
    assert_eq!(c.observed_spend, 40);
    let c = spell_cycle_of(&names(&["spell-7"]), &vec![], 0);
    assert!(!c.no_placeholders);
    assert!(c.all_modeled);
}

fn gap_evidence() -> GapEvidence {
    GapEvidence {
        open_p0: 0,
        open_p1: 0,
        total_open: 0,
        items: FieldValue::Array(vec!["{\"id\":\"G1\"}".to_string()]),
        spell_names: names(&["magic missile"]),
        monster_names: names(&["rat"]),
        traps: 3,
        city_sites: 12,
        item_family_sizes: vec![41, 0, 18],
        bounds_width: 4,
        bounds_height: 3,
        city_site_cells: 12,
        country_width: 2,
        country_height: 2,
        country_cells: 4,
        country_semantic: "Country".to_string(),
        country_view_switched: true,
        city_semantic: "City".to_string(),
        city_view_switched: true,
    }
}

#[test]
fn gap_ledger_passes_when_maps_load_and_nothing_is_open() {
    let l = gap_ledger_at(&gap_evidence(), "unix:3".to_string());
    assert!(l.pass);
    assert_eq!(l.r1_checks_total, 4);
    assert_eq!(l.r1_checks_failed, 0);
    assert_eq!(l.item_families, 2);
    assert_eq!(l.r1_checks[0].details, "site_grid_cells=12 expected=12");
    assert_eq!(l.r1_checks[1].details, "country_dims=2x2 cells=4");
    assert_eq!(l.items, FieldValue::Array(vec!["{\"id\":\"G1\"}".to_string()]));
    let mut e = gap_evidence();
    e.city_site_cells = 10;
    e.city_semantic = "Site".to_string();
    e.open_p1 = 1;
    let l = gap_ledger_at(&e, "unix:3".to_string());
    assert!(!l.pass);
    assert_eq!(l.r1_checks_failed, 2);
    assert_eq!(l.r1_checks[2].details, "country_semantic=true city_semantic=false");
}
