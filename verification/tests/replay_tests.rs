use omega_tools::replay::{
    command_text, dashboard_from_scenarios, dashboard_markdown, evaluate_fixture, fixture_has_tag,
    fixture_mismatches, is_supported_contract_version, normalize_fixture_metadata, run_dashboard_from_dir,
    FixtureMetadata, GridPosition, ReplayCommand, ReplayDirection, ReplayExpectation, ReplayObservation,
    ReplayScenarioResult,
};

fn meta(name: &str, family: &str, tags: &[&str], active: bool, version: u16) -> FixtureMetadata {
    FixtureMetadata {
        contract_version: version,
        active,
        source: "legacy_handcrafted".to_string(),
        name: name.to_string(),
        family: family.to_string(),
        tags: tags.iter().map(|t| t.to_string()).collect(),
    }
}

fn expectation() -> ReplayExpectation {
    ReplayExpectation {
        turn: 3,
        minutes: 18,
        player_position: GridPosition { x: 4, y: 5 },
        player_hp: 20,
        monsters_alive: 1,
        inventory_count: 2,
        ground_item_count: 0,
        required_event_kinds: vec!["waited".to_string()],
        world_mode: None,
        guild_rank: None,
        priest_rank: None,
        alignment: None,
        quest_state: None,
        total_winner_unlocked: None,
        gold: None,
        bank_gold: None,
        food: None,
        known_site_count: None,
        ending: None,
        high_score_eligible: None,
    }
}

fn observation() -> ReplayObservation {
    ReplayObservation {
        turn: 3,
        minutes: 18,
        player_position: GridPosition { x: 4, y: 5 },
        player_hp: 20,
        monsters_alive: 1,
        inventory_count: 2,
        ground_item_count: 0,
        world_mode: "DungeonCity".to_string(),
        guild_rank: 0,
        priest_rank: 0,
        alignment: "Neutral".to_string(),
        quest_state: "NotStarted".to_string(),
        total_winner_unlocked: false,
        gold: 250,
        bank_gold: 0,
        food: 40,
        known_site_count: 3,
        ending: "None".to_string(),
        high_score_eligible: true,
        seen_event_kinds: vec!["moved".to_string(), "waited".to_string()],
    }
}

fn result(name: &str, family: &str, tags: &[&str], active: bool, passed: bool) -> ReplayScenarioResult {
    ReplayScenarioResult {
        name: name.to_string(),
        family: family.to_string(),
        tags: tags.iter().map(|t| t.to_string()).collect(),
        source: "legacy_handcrafted".to_string(),
        active,
        deprecated: !active,
        schema_mismatch: false,
        passed,
        checks: if passed { vec!["all checks passed".to_string()] } else { vec!["turn mismatch: expected 2, got 3".to_string()] },
        final_turn: 3,
        final_minutes: 18,
    }
}

#[test]
fn matching_final_state_passes_all_checks() {
    let r = evaluate_fixture(&meta("walk", "movement", &["smoke"], true, 1), &expectation(), &observation());
    assert!(r.passed);
    assert!(!r.schema_mismatch);
    assert_eq!(r.checks, vec!["all checks passed".to_string()]);
    assert_eq!(r.final_turn, 3);
    assert_eq!(r.final_minutes, 18);
    assert_eq!(r.name, "walk");
    assert!(!r.deprecated);
}

#[test]
fn mismatches_are_reported_in_check_order() {
    let mut e = expectation();
    e.turn = 2;
    e.player_position = GridPosition { x: -1, y: 5 };
    e.world_mode = Some("Countryside".to_string());
    e.gold = Some(-7);
    e.high_score_eligible = Some(false);
    e.required_event_kinds.push("attacked".to_string());
    let checks = fixture_mismatches(&e, &observation());
    assert_eq!(
        checks,
        vec![
            "turn mismatch: expected 2, got 3".to_string(),
            "player_position mismatch: expected (-1, 5), got (4, 5)".to_string(),
            "world_mode mismatch: expected Countryside, got DungeonCity".to_string(),
            "gold mismatch: expected -7, got 250".to_string(),
            "high_score_eligible mismatch: expected false, got true".to_string(),
            "required event kind missing: attacked".to_string(),
        ]
    );
    let r = evaluate_fixture(&meta("walk", "movement", &[], false, 1), &e, &observation());
    assert!(!r.passed);
    assert!(r.deprecated);
    assert_eq!(r.checks.len(), 6);
}

#[test]
fn newer_contract_is_a_schema_mismatch() {
    let r = evaluate_fixture(&meta("future", "misc", &[], true, 2), &expectation(), &observation());
    assert!(r.schema_mismatch);
    assert!(!r.passed);
    assert_eq!(r.checks, vec!["schema mismatch: contract_version=2 supported_max=1".to_string()]);
    assert_eq!(r.final_turn, 0);
    assert_eq!(r.final_minutes, 0);
    assert!(is_supported_contract_version(1));
    assert!(!is_supported_contract_version(2));
}

#[test]
fn normalizing_metadata_sorts_tags_and_fills_defaults() {
    let mut m = meta("x", "  ", &["b", " ", "a", "b"], true, 1);
    m.source = String::new();
    normalize_fixture_metadata(&mut m);
    assert_eq!(m.tags, vec!["a".to_string(), "b".to_string()]);
    assert_eq!(m.family, "unclassified");
    assert_eq!(m.source, "legacy_handcrafted");
    assert!(fixture_has_tag(&m, "a"));
    assert!(!fixture_has_tag(&m, "c"));
}

#[test]
fn command_text_names_each_command() {
    assert_eq!(command_text(&ReplayCommand::Wait), "wait");
    assert_eq!(command_text(&ReplayCommand::Move { direction: ReplayDirection::North }), "move:North");
    assert_eq!(command_text(&ReplayCommand::Attack { direction: ReplayDirection::West }), "attack:West");
    assert_eq!(command_text(&ReplayCommand::Pickup), "pickup");
    assert_eq!(command_text(&ReplayCommand::Drop { slot: 12 }), "drop:12");
    assert_eq!(command_text(&ReplayCommand::Legacy { token: "^x".to_string() }), "legacy:^x");
}

#[test]
fn dashboard_counts_and_rollups() {
    let d = dashboard_from_scenarios(vec![
        result("a", "combat", &["critical_path", "smoke"], true, true),
        result("b", "combat", &["smoke"], true, false),
        result("c", "movement", &["critical_path"], false, true),
    ]);
    assert_eq!(d.total, 3);
    assert_eq!(d.passed, 2);
    assert_eq!(d.failed, 1);
    assert_eq!(d.active_total, 2);
    assert_eq!(d.active_passed, 1);
    assert_eq!(d.failed_active, 1);
    assert_eq!(d.inactive_total, 1);
    assert_eq!(d.inactive_passed, 1);
    assert_eq!(d.failed_inactive, 0);
    assert_eq!(d.schema_mismatch_total, 0);
    assert_eq!(d.pass_rate_percent_x100, 6666);
    assert_eq!(d.critical_path_total, 2);
    assert_eq!(d.critical_path_passed, 2);
    assert_eq!(d.critical_path_failed, 0);
    let tags: Vec<(String, usize, usize, usize)> =
        d.tag_rollups.iter().map(|r| (r.key.clone(), r.total, r.passed, r.failed)).collect();
    assert_eq!(tags, vec![("critical_path".to_string(), 2, 2, 0), ("smoke".to_string(), 2, 1, 1)]);
    let fams: Vec<(String, usize, usize, usize)> =
        d.family_rollups.iter().map(|r| (r.key.clone(), r.total, r.passed, r.failed)).collect();
    assert_eq!(fams, vec![("combat".to_string(), 2, 1, 1), ("movement".to_string(), 1, 1, 0)]);
}

#[test]
fn empty_dashboard_has_zero_pass_rate() {
    let d = dashboard_from_scenarios(Vec::new());
    assert_eq!(d.total, 0);
    assert_eq!(d.pass_rate_percent_x100, 0);
    assert!(d.tag_rollups.is_empty());
    assert!(d.family_rollups.is_empty());
}

#[test]
fn dashboard_from_fixtures_evaluates_each_fixture() {
    let mut bad = expectation();
    bad.turn = 9;
    let fixtures = vec![
        (meta("one", "movement", &["smoke"], true, 1), expectation(), observation()),
        (meta("two", "movement", &["smoke"], true, 1), bad, observation()),
    ];
    let d = run_dashboard_from_dir(&fixtures);
    assert_eq!(d.total, 2);
    assert_eq!(d.passed, 1);
    assert_eq!(d.scenarios[1].checks, vec!["turn mismatch: expected 9, got 3".to_string()]);
}

#[test]
fn dashboard_markdown_lists_summary_rollups_and_failures() {
    let d = dashboard_from_scenarios(vec![
        result("a", "combat", &["smoke"], true, true),
        result("b", "combat", &[], true, false),
    ]);
    let md = dashboard_markdown(&d);
    let expected = [
        "# WS-D Regression Dashboard",
        "",
        "- Total scenarios: 2",
        "- Passed: 1",
        "- Failed: 1",
        "- Active denominator: total=2, passed=1, failed=1",
        "- Inactive scenarios: total=0, passed=0, failed=0",
        "- Schema mismatches: 0",
        "- Pass rate: 50.00%",
        "- Critical path: total=0, passed=0, failed=0",
        "",
        "## Tag Rollups",
        "",
        "| Tag | Total | Passed | Failed |",
        "|---|---:|---:|---:|",
        "| smoke | 1 | 1 | 0 |",
        "",
        "## Family Rollups",
        "",
        "| Family | Total | Passed | Failed |",
        "|---|---:|---:|---:|",
        "| combat | 2 | 1 | 1 |",
        "",
        "## Scenario Sample",
        "",
        "| Scenario | Family | Active | Source | Schema | Result | Final Turn | Final Minutes |",
        "|---|---|---|---|---|---|---:|---:|",
        "| a | combat | yes | legacy_handcrafted | ok | PASS | 3 | 18 |",
        "| b | combat | yes | legacy_handcrafted | ok | FAIL | 3 | 18 |",
        "",
        "## Failure: b",
        "- active=true source=legacy_handcrafted schema_mismatch=false",
        "- turn mismatch: expected 2, got 3",
        "",
    ]
    .join("\n");
    assert_eq!(md, expected);
}

#[test]
fn normalizing_metadata_twice_changes_nothing() {
    let mut m = meta("x", "", &["z", "a", "", "z"], true, 1);
    m.source = "  ".to_string();
    normalize_fixture_metadata(&mut m);
    let once = m.clone();
    normalize_fixture_metadata(&mut m);
    assert_eq!(m, once);
}

#[test]
fn dashboard_totals_split_consistently() {
    let d = dashboard_from_scenarios(vec![
        result("a", "f1", &["critical_path"], true, true),
        result("b", "f2", &["critical_path", "x"], false, false),
        result("c", "f1", &["x"], false, true),
        result("d", "f3", &[], true, false),
    ]);
    assert_eq!(d.passed + d.failed, d.total);
    assert_eq!(d.active_total + d.inactive_total, d.total);
    assert_eq!(d.active_passed + d.inactive_passed, d.passed);
    assert_eq!(d.failed_active + d.failed_inactive, d.failed);
    assert_eq!(d.critical_path_passed + d.critical_path_failed, d.critical_path_total);
    assert!(d.pass_rate_percent_x100 <= 10000);
    assert_eq!(d.pass_rate_percent_x100, 5000);
    let family_sum: usize = d.family_rollups.iter().map(|r| r.total).sum();
    assert_eq!(family_sum, d.total);
    assert!(d.tag_rollups.iter().all(|r| r.passed + r.failed == r.total && r.total <= d.total));
}
