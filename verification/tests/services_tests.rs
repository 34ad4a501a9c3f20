use omega_tools::services::{
    blackbox_markdown_at, blackbox_report, blackbox_scenario_result, blackbox_scenarios, branch_matrix,
    compare_opt, has_placeholder_noise, has_service_placeholder_noise, manual_input, manual_trace, oracle_fixtures,
    oracle_markdown, run_fixture_check, scenario_fixture, scenario_id, service_diff_results,
    service_differential_report, BlackboxRun, BlackboxScenario, BlackboxSummary, FinalStateVector,
    OracleObservation, ScenarioSnapshot, StateVector,
};

fn strings(v: &[&str]) -> Vec<String> {
    v.iter().map(|s| s.to_string()).collect()
}

fn vector() -> FinalStateVector {
    FinalStateVector {
        gold: 250,
        bank_gold: 0,
        food: 2,
        guild_rank: 0,
        priest_rank: 0,
        alignment: "Neutral".to_string(),
        law_chaos_score: 0,
        deity_favor: 0,
        legal_heat: 0,
        quest_state: "NotStarted".to_string(),
        quest_steps_completed: 0,
        main_quest_stage: "Opening".to_string(),
        arena_rank: 0,
        arena_match_active: false,
        inventory_count: 0,
        known_spells_count: 0,
        world_mode: "DungeonCity".to_string(),
        map_semantic: "City".to_string(),
    }
}

#[test]
fn placeholder_noise_is_case_insensitive() {
    assert!(has_service_placeholder_noise(&strings(&["ok", "The Audience HELD quietly"])));
    assert!(!has_service_placeholder_noise(&strings(&["generic audience granted"])));
    assert!(has_placeholder_noise(&strings(&["generic audience granted"])));
    assert!(!has_placeholder_noise(&strings(&["You pay 10 gold."])));
}

#[test]
fn blackbox_scenario_catalog() {
    let all = blackbox_scenarios();
    assert_eq!(all.len(), 18);
    assert_eq!(scenario_id(all[0]), "fixture_merc_success");
    assert_eq!(scenario_id(all[17]), "manual_order_invalid_then_cancel");
    assert_eq!(
        scenario_fixture(BlackboxScenario::FixtureBankFlow),
        Some("crates/omega-tools/fixtures/replay/r3_site_bank.json")
    );
    assert_eq!(scenario_fixture(BlackboxScenario::ManualArmorerPurchase), None);
    let (seed, tokens) = manual_input(BlackboxScenario::ManualOrderInvalidThenCancel).unwrap();
    assert_eq!(seed, 0xBB07);
    assert_eq!(tokens, strings(&[">", "9", "x"]));
    assert!(manual_input(BlackboxScenario::FixtureShopService).is_none());
    assert_eq!(manual_trace(&tokens), strings(&["legacy:>", "legacy:9", "legacy:x"]));
}

#[test]
fn bank_scenario_failures_are_reported() {
    let run = BlackboxRun {
        terminal_status: None,
        log: strings(&["deposit"]),
        before: vector(),
        after: vector(),
        thieves_rank: 0,
        site_prompt_open: false,
    };
    let result = blackbox_scenario_result(BlackboxScenario::FixtureBankFlow, vec![], run);
    assert_eq!(result.id, "fixture_bank_flow");
    assert!(!result.pass);
    assert_eq!(
        result.failed_assertions,
        strings(&["expected bank_gold >0, got 0", "expected gold to decrease from baseline, got 250"])
    );
}

#[test]
fn terminal_and_noisy_runs_fail_first() {
    let mut after = vector();
    after.bank_gold = 100;
    after.gold = 150;
    let run = BlackboxRun {
        terminal_status: Some("Lost".to_string()),
        log: strings(&["generic audience"]),
        before: vector(),
        after,
        thieves_rank: 0,
        site_prompt_open: false,
    };
    let result = blackbox_scenario_result(BlackboxScenario::FixtureBankFlow, strings(&["x"]), run);
    assert_eq!(
        result.failed_assertions,
        strings(&["session status is terminal: Lost", "placeholder dialogue noise detected in log"])
    );
    assert_eq!(result.input_trace, strings(&["x"]));
    let report = blackbox_report(vec![result]);
    assert_eq!(report.total, 1);
    assert_eq!(report.failed, 1);
    assert!(!report.pass);
    let md = blackbox_markdown_at(&report, "unix:5");
    assert!(md.starts_with("# Service Branch Blackbox Smoke"));
    assert!(md.contains("  - session status is terminal: Lost"));
}

fn observation(pass: bool) -> OracleObservation {
    OracleObservation {
        fixture_pass: pass,
        site_prompt_open: false,
        log: strings(&["You buy a sword."]),
        final_turn: 12,
        gold: -5,
        bank_gold: 30,
        guild_rank: 1,
        priest_rank: 0,
        alignment: "Lawful".to_string(),
        quest_state: "Active".to_string(),
        food: 3,
    }
}

#[test]
fn oracle_checks_and_matrix() {
    let fixtures = oracle_fixtures();
    assert_eq!(fixtures.len(), 11);
    assert_eq!(fixtures[0].0, "shop_service");
    let check = run_fixture_check("shop_service", "f.json", &observation(true));
    assert!(check.passed);
    assert_eq!(
        check.details,
        "fixture_pass=true no_open_prompt=true no_placeholder_noise=true final_turn=12 gold=-5 bank=30 guild_rank=1 priest_rank=0 alignment=Lawful quest=Active food=3"
    );
    let failing = run_fixture_check("bank_service", "g.json", &observation(false));
    assert!(!failing.passed);
    let m = branch_matrix(vec![check, failing]);
    assert_eq!((m.total, m.passed, m.failed, m.pass), (2, 1, 1, false));
    let md = oracle_markdown(&m);
    assert!(md.contains("bank_service"));
}

fn state(gold: &str) -> StateVector {
    StateVector {
        gold: Some(gold.to_string()),
        bank_gold: None,
        guild_rank: None,
        priest_rank: None,
        alignment: Some("Lawful".to_string()),
        quest_state: None,
    }
}

#[test]
fn differential_compares_certified_fields() {
    let mut out = Vec::new();
    compare_opt("gold", &Some("5".to_string()), &Some("6".to_string()), &mut out);
    compare_opt("food", &Some("5".to_string()), &None, &mut out);
    compare_opt("bank", &None, &Some("1".to_string()), &mut out);
    assert_eq!(out, strings(&["gold mismatch: legacy=5 rust=6", "food missing in rust snapshot"]));

    let legacy = vec![
        ScenarioSnapshot { id: "a".to_string(), family: "site_bank".to_string(), active: true, state: state("10") },
        ScenarioSnapshot { id: "b".to_string(), family: "combat".to_string(), active: true, state: state("10") },
        ScenarioSnapshot { id: "c".to_string(), family: "site_shop".to_string(), active: true, state: state("7") },
        ScenarioSnapshot { id: "d".to_string(), family: "site_arena".to_string(), active: false, state: state("7") },
        ScenarioSnapshot { id: "e".to_string(), family: "site_temple".to_string(), active: true, state: state("1") },
    ];
    let rust = vec![
        ScenarioSnapshot { id: "a".to_string(), family: "site_bank".to_string(), active: true, state: state("10") },
        ScenarioSnapshot { id: "c".to_string(), family: "site_shop".to_string(), active: true, state: state("8") },
    ];
    let blackbox = BlackboxSummary { pass: false, total: 18, passed: 17, failed: 1 };
    let results = service_diff_results(&legacy, &rust, &blackbox);
    assert_eq!(results.len(), 4);
    assert!(results[0].pass);
    assert_eq!(results[0].details, "service branch state aligned on certified fields");
    assert_eq!(results[1].mismatches, strings(&["gold mismatch: legacy=7 rust=8"]));
    assert_eq!(results[2].id, "e");
    assert_eq!(results[2].mismatches, strings(&["missing rust service scenario"]));
    assert_eq!(results[3].id, "blackbox_service_suite");
    assert_eq!(results[3].details, "blackbox pass=false passed=17/18 failed=1");
    assert_eq!(results[3].mismatches, strings(&["service_branch_blackbox_smoke failed"]));
    let report = service_differential_report(results, "unix:9".to_string());
    assert_eq!((report.total, report.passed, report.failed, report.pass), (4, 1, 3, false));
}
