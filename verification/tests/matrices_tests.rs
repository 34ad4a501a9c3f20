use omega_tools::matrices::{
    extract_usef_tokens, item_matrix_checks, site_matrix_checks, spell_matrix_checks, trial_spells,
    usef_coverage_check, ItemObservation, SiteRow, SpellTrial,
};

fn strings(v: &[&str]) -> Vec<String> {
    v.iter().map(|s| s.to_string()).collect()
}

#[test]
fn usef_tokens_are_sorted_and_unique() {
    let tokens = extract_usef_tokens("x I_FOO I_ I_A1 I_FOO lowercase I_bad");
    assert_eq!(tokens, strings(&["I_A1", "I_FOO"]));
    assert!(extract_usef_tokens("nothing here").is_empty());
}

#[test]
fn usef_coverage_lists_missing_tokens() {
    let catalog = strings(&[" I_FIRE ", "none", "I_ICE", "I_FIRE"]);
    let check = usef_coverage_check(&catalog, "match I_FIRE => ...");
    assert_eq!(check.id, "legacy_usef_tokens_covered");
    assert!(!check.passed);
    assert_eq!(check.details, "legacy_usef=2 runtime_tokens=1 missing=I_ICE");
    let check = usef_coverage_check(&catalog, "I_ICE I_FIRE");
    assert!(check.passed);
    assert_eq!(check.details, "legacy_usef=2 runtime_tokens=2 missing=<none>");
}

fn observation() -> ItemObservation {
    ItemObservation {
        catalog_total: 223,
        weapons: 41,
        armor: 17,
        potions: 18,
        scrolls: 24,
        rings: 9,
        artifacts: 26,
        pickups: vec![true, true, true, true],
        dropped: true,
        inventory_len: 3,
        ground_len: 1,
        typed_items: 3,
        usef_complete: true,
        inventory_names: strings(&["long sword", "buckler", "healing potion"]),
    }
}

#[test]
fn item_matrix_passes_on_full_catalog() {
    let checks = item_matrix_checks(&observation(), &strings(&["I_HEAL"]), "I_HEAL");
    assert_eq!(checks.len(), 7);
    assert!(checks.iter().all(|c| c.passed));
    assert_eq!(checks[0].details, "total=223");
    assert_eq!(checks[1].details, "weapon=41 armor=17 potion=18 scroll=24 ring=9 artifact=26");
    assert_eq!(checks[4].details, "typed=3/3 usef_complete=true");
}

#[test]
fn item_matrix_flags_placeholders_and_missing_pickups() {
    let mut o = observation();
    o.pickups[2] = false;
    o.inventory_names.push("named-thing".to_string());
    o.catalog_total = 200;
    let checks = item_matrix_checks(&o, &strings(&[]), "");
    assert!(!checks[0].passed);
    assert!(!checks[2].passed);
    assert!(!checks[5].passed);
    assert!(checks[6].passed);
}

#[test]
fn spell_matrix_counts_trials() {
    assert_eq!(trial_spells().len(), 42);
    let full = vec![SpellTrial { prompt_opened: true, modeled: true, mana_consumed: true }; 42];
    let checks = spell_matrix_checks(42, &full);
    assert!(checks.iter().all(|c| c.passed));
    let mut partial = full.clone();
    partial[0].mana_consumed = false;
    let checks = spell_matrix_checks(41, &partial);
    assert!(!checks[0].passed);
    assert!(checks[1].passed);
    assert_eq!(checks[3].details, "mana_consumed_trials=41/42");
}

#[test]
fn site_matrix_reads_rows_or_reports_missing() {
    let missing = site_matrix_checks(&None);
    assert_eq!(missing.len(), 1);
    assert_eq!(missing[0].id, "site_runtime_matrix_missing");
    assert!(!missing[0].passed);
    let rows = vec![
        SiteRow { id: Some("bank".to_string()), passed: Some(true), details: Some("ok".to_string()) },
        SiteRow { id: None, passed: None, details: None },
    ];
    let checks = site_matrix_checks(&Some(rows));
    assert_eq!(checks[0].id, "bank");
    assert!(checks[0].passed);
    assert_eq!(checks[1].id, "unknown");
    assert!(!checks[1].passed);
    assert_eq!(checks[1].details, "");
}
