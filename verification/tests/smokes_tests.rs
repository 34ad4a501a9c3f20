use omega_tools::fields::{FieldValue, JsonFields};
use omega_tools::refresh::MatrixCheck;
use omega_tools::replay::{dashboard_from_scenarios, ReplayScenarioResult};
use omega_tools::smokes::{
    evaluate, evaluate_case, quest_artifacts, quest_board_markdown, quest_defect_board_at, quest_defects,
    replay_summary_line, replay_tool_verdict, runtime_checks, save_compat_markdown, scenario_lines,
    QuestArtifactScan, ReplayToolFailure, RuntimeEvidence, RuntimeRow, SaveDecodeOutcome, ScriptedRng,
};

fn pass_report(pass: bool) -> JsonFields {
    JsonFields { entries: vec![("pass".to_string(), FieldValue::Bool(pass))] }
}

#[test]
fn quest_board_lists_missing_and_failing_artifacts() {
    let artifacts = quest_artifacts();
    assert_eq!(artifacts.len(), 4);
    assert_eq!(artifacts[0], ("target/legacy-quest-contract.json".to_string(), false));
    let scans = vec![
        QuestArtifactScan {
            path: "target/legacy-quest-contract.json".to_string(),
            requires_pass: false,
            present: true,
            report: None,
        },
        QuestArtifactScan {
            path: "target/quest-parity-matrix.json".to_string(),
            requires_pass: true,
            present: false,
            report: None,
        },
        QuestArtifactScan {
            path: "target/quest-parity-smoke.json".to_string(),
            requires_pass: true,
            present: true,
            report: Some(pass_report(false)),
        },
        QuestArtifactScan {
            path: "target/classic-site-service-parity-matrix.json".to_string(),
            requires_pass: true,
            present: true,
            report: Some(pass_report(true)),
        },
    ];
    let defects = quest_defects(&scans);
    assert_eq!(defects.len(), 2);
    assert_eq!(defects[0].id, "missing_target_quest_parity_matrix_json");
    assert_eq!(defects[0].status, "MISSING");
    assert_eq!(defects[1].id, "failing_target_quest_parity_smoke_json");
    assert_eq!(defects[1].details, "artifact reported pass=false");
    let board = quest_defect_board_at(&scans, "unix:1".to_string());
    assert_eq!(board.artifacts_scanned, 4);
    assert_eq!(board.open_defects.len(), 2);
    let md = quest_board_markdown(&board);
    assert!(md.contains("missing_target_quest_parity_matrix_json"));
}

#[test]
fn save_cases_and_pass_rate() {
    let ok = evaluate_case(
        "a.json",
        &SaveDecodeOutcome::Decoded { version: 1, saved_turn: 5, saved_minutes: 30, state_turn: 5, state_minutes: 30 },
    );
    assert!(ok.passed);
    assert_eq!(ok.details, "decoded and migrated to v1");
    let old = evaluate_case(
        "b.json",
        &SaveDecodeOutcome::Decoded { version: 0, saved_turn: 5, saved_minutes: 30, state_turn: 5, state_minutes: 30 },
    );
    assert_eq!(old.details, "migrated version=0, expected 1");
    let drift = evaluate_case(
        "c.json",
        &SaveDecodeOutcome::Decoded { version: 1, saved_turn: 5, saved_minutes: 30, state_turn: 6, state_minutes: 30 },
    );
    assert_eq!(drift.details, "metadata turn/minutes mismatch after decode");
    let unreadable = evaluate_case("d.json", &SaveDecodeOutcome::ReadFailed { error: "denied".to_string() });
    assert_eq!(unreadable.details, "read failed: denied");
    let report = evaluate(vec![ok, old, drift]);
    assert_eq!((report.total, report.passed, report.failed), (3, 1, 2));
    assert_eq!(report.pass_rate_percent_x100, 3333);
    assert_eq!(evaluate(vec![]).pass_rate_percent_x100, 0);
    let md = save_compat_markdown(&report);
    assert!(md.contains("a.json"));
}

#[test]
fn runtime_checks_read_rows() {
    let e = RuntimeEvidence {
        arena_pass: true,
        arena_opener_dropped: true,
        arena_exited_after_opener: true,
        inventory_pass: true,
        inventory_rows: Some(vec![
            RuntimeRow { id: Some("inventory_modal_open".to_string()), passed: true },
            RuntimeRow { id: Some("inventory_look_vs_show_parity".to_string()), passed: false },
        ]),
        service_pass: true,
        service_passed: 11,
        service_total: 11,
        quest_pass: false,
        quest_steps: 4,
        victory_pass: true,
        victory_passed: 3,
        victory_total: 3,
    };
    let checks: Vec<MatrixCheck> = runtime_checks(&e);
    assert_eq!(checks.len(), 5);
    assert!(checks[0].passed);
    assert!(!checks[1].passed);
    assert_eq!(
        checks[1].details,
        "pass=true inventory_modal_open=true inventory_look_vs_show_parity=false"
    );
    assert_eq!(checks[2].details, "passed=11/11");
    assert_eq!(checks[3].details, "steps=4 pass=false");
}

fn scenario(name: &str, active: bool, passed: bool) -> ReplayScenarioResult {
    ReplayScenarioResult {
        name: name.to_string(),
        family: "site".to_string(),
        tags: vec![],
        source: "fixture".to_string(),
        active,
        deprecated: false,
        schema_mismatch: false,
        passed,
        checks: if passed { vec![] } else { vec!["gold mismatch: expected 1, got 2".to_string()] },
        final_turn: 3,
        final_minutes: 18,
    }
}

#[test]
fn replay_tool_verdicts() {
    let d = dashboard_from_scenarios(vec![scenario("a", true, true), scenario("b", false, false)]);
    assert_eq!(replay_tool_verdict(&d, 1, false), Ok(()));
    assert_eq!(replay_tool_verdict(&d, 1, true), Err(ReplayToolFailure::RegressionFailures));
    assert_eq!(
        replay_tool_verdict(&d, 5, false),
        Err(ReplayToolFailure::DenominatorTooSmall { count: 1, required: 5 })
    );
    assert_eq!(
        replay_summary_line(&d),
        "Summary: total=2 passed=1 failed=1 | active_total=1 active_passed=1 failed_active=0 | inactive_total=1 inactive_passed=0 failed_inactive=1 schema_mismatch=0"
    );
    assert_eq!(
        scenario_lines(&scenario("b", false, false)),
        vec!["[FAIL] b (inactive, turn=3, minutes=18)".to_string(), "  - gold mismatch: expected 1, got 2".to_string()]
    );
    assert_eq!(scenario_lines(&scenario("a", true, true)), vec!["[PASS] a (active, turn=3, minutes=18)".to_string()]);
}

#[test]
fn scripted_rng_clamps_then_falls_back_to_min() {
    let mut rng = ScriptedRng::new(vec![5, -3, 100]);
    assert_eq!(rng.range_inclusive_i32(1, 10), 5);
    assert_eq!(rng.range_inclusive_i32(1, 10), 1);
    assert_eq!(rng.range_inclusive_i32(1, 10), 10);
    assert_eq!(rng.range_inclusive_i32(2, 10), 2);
    assert_eq!(rng.cursor, 4);
}
