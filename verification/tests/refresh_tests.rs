use omega_tools::fields::{FieldValue, JsonFields};
use omega_tools::refresh::{
    artifact_snapshot, baseline_freeze_at, baseline_required_artifacts, build_baseline_freeze,
    build_burnin_window, build_command_matrix, build_deviation_ledger, build_regression_dashboard,
    burnin_window_at, classify_command_outcome, command_matrix_at, command_matrix_tokens, dashboard_components,
    fnv1a64, refresh_all_pass, refresh_deviations, regression_dashboard_at, true_matrix, true_matrix_at,
    CommandOutcome, DashboardEvidence, MatrixCheck, TrueCommandBehaviorMatrix, TrueMatrix,
};

fn fields(entries: &[(&str, FieldValue)]) -> JsonFields {
    JsonFields { entries: entries.iter().map(|(k, v)| (k.to_string(), v.clone())).collect() }
}

fn pass_report() -> JsonFields {
    fields(&[("pass", FieldValue::Bool(true)), ("passed", FieldValue::Unsigned(3)), ("total", FieldValue::Unsigned(3))])
}

fn check(id: &str, passed: bool) -> MatrixCheck {
    MatrixCheck { id: id.to_string(), passed, details: String::new() }
}

fn matrix(passing: bool) -> TrueMatrix {
    true_matrix_at(vec![check("a", true), check("b", passing)], "unix:1".to_string())
}

fn command(pass: bool) -> TrueCommandBehaviorMatrix {
    let outcomes = if pass { vec![CommandOutcome::Implemented] } else { vec![CommandOutcome::Missing] };
    command_matrix_at(&outcomes, "unix:1".to_string())
}

fn evidence() -> DashboardEvidence {
    DashboardEvidence {
        startup: pass_report(),
        mechanics: fields(&[("pass", FieldValue::Bool(true)), ("unknown", FieldValue::Unsigned(0))]),
        environment: matrix(true),
        command: command(true),
        legacy_command_binding_parity: pass_report(),
        spells: matrix(true),
        items: matrix(true),
        combat: matrix(true),
        site: matrix(true),
        progression: matrix(true),
        compatibility: matrix(true),
        frontend: matrix(true),
        frontend_strict: pass_report(),
        replay_dashboard: fields(&[("total", FieldValue::Unsigned(5)), ("failed", FieldValue::Unsigned(0))]),
        guild_live_check: fields(&[]),
        service_branch_blackbox: pass_report(),
        site_branch_diff: fields(&[]),
        parity_certify: pass_report(),
        classic_mode_drift_guard: pass_report(),
        classic_objective_drift_guard: pass_report(),
        modern_mode_smoke: pass_report(),
        modern_bevy_visual_smoke: pass_report(),
        modern_objective_blackbox_smoke: pass_report(),
        bevy_visual_blackbox_suite: pass_report(),
        dual_mode_blackbox_suite: pass_report(),
        mode_artifact_integrity_guard: pass_report(),
        classic_visual_drift_guard: pass_report(),
        bevy_semantic_projection_parity: pass_report(),
    }
}

fn determinism(required: u64, divergent: u64) -> Option<JsonFields> {
    Some(fields(&[
        ("required_runs_per_fixture", FieldValue::Unsigned(required)),
        ("total_runs", FieldValue::Unsigned(required * 4)),
        ("divergent_runs", FieldValue::Unsigned(divergent)),
    ]))
}

#[test]
fn matrix_counts_checks() {
    let m = true_matrix_at(vec![check("a", true), check("b", false), check("c", true)], "unix:3".to_string());
    assert_eq!(m.total, 3);
    assert_eq!(m.passed, 2);
    assert_eq!(m.failed, 1);
    assert!(!m.pass);
    assert_eq!(m.generated_at_utc, "unix:3");
    let empty = true_matrix(Vec::new());
    assert!(empty.pass);
    assert_eq!(empty.total, 0);
}

#[test]
fn dashboard_components_follow_evidence() {
    let mut e = evidence();
    let cs = dashboard_components(&e);
    assert_eq!(cs.len(), 28);
    assert_eq!(cs[0].id, "startup");
    assert_eq!(cs[0].details, "passed=3/3");
    assert_eq!(cs[1].id, "mechanics");
    assert_eq!(
        cs[1].details,
        "pass=true unknown=0 main_non_equivalent=0 unresolved_gameplay=0 gameplay_excluded=0"
    );
    assert_eq!(cs[2].details, "passed=2/2");
    assert_eq!(cs[3].details, "missing=0 partial=0");
    assert_eq!(cs[13].id, "replay_dashboard_active");
    assert_eq!(cs[13].details, "active_total=5 failed_active=0");
    assert!(!cs[14].pass);
    let d = regression_dashboard_at(&e, "unix:4".to_string());
    assert_eq!(d.total, 28);
    assert_eq!(d.passed, 26);
    assert_eq!(d.failed, 2);
    assert_eq!(d.status, "FAIL");
    e.guild_live_check = pass_report();
    e.site_branch_diff = pass_report();
    let ok = build_regression_dashboard(&e);
    assert_eq!(ok.status, "PASS");
    assert!(ok.generated_at_utc.starts_with("unix:"));
}

#[test]
fn burnin_blockers_in_order() {
    let replay_bad = fields(&[("active_total", FieldValue::Unsigned(4)), ("failed_active", FieldValue::Unsigned(2))]);
    let w = burnin_window_at(&None, &replay_bad, "unix:8".to_string());
    assert!(!w.pass);
    assert_eq!(
        w.blockers,
        vec![
            "missing ws-d determinism report".to_string(),
            "required_runs_per_fixture=0 below 20".to_string(),
            "frontend replay failures=2".to_string(),
        ]
    );
    assert_eq!(w.replay_total_scenarios, 4);
    let w2 = burnin_window_at(&determinism(20, 1), &fields(&[]), "unix:8".to_string());
    assert_eq!(w2.blockers, vec!["determinism divergences=1".to_string()]);
    assert_eq!(w2.determinism_total_runs, 80);
    let ok = build_burnin_window(&determinism(25, 0), &fields(&[]));
    assert!(ok.pass);
    assert!(ok.blockers.is_empty());
}

#[test]
fn track_deviations_close_with_evidence() {
    let mut e = evidence();
    e.guild_live_check = pass_report();
    e.site_branch_diff = pass_report();
    let dash = regression_dashboard_at(&e, "unix:1".to_string());
    let burnin = burnin_window_at(&determinism(20, 0), &fields(&[]), "unix:1".to_string());
    let items = refresh_deviations(&e, &dash, &burnin);
    assert_eq!(items.len(), 12);
    assert!(items.iter().all(|d| d.status == "CLOSED"));
    assert_eq!(items[9].details, "matrix=2/2 strict=3/3");
    assert_eq!(items[11].details, "dashboard=PASS burnin=true");
    let ledger = build_deviation_ledger(&e, &dash, &burnin);
    assert_eq!(ledger.summary.open, 0);
    let freeze = baseline_freeze_at(vec![artifact_snapshot("a.json", &Some(b"a".to_vec()))], "unix:1".to_string());
    assert!(refresh_all_pass(&e, &dash, &burnin, &ledger, &freeze));

    e.spells = matrix(false);
    let items = refresh_deviations(&e, &dash, &burnin);
    assert_eq!(items[3].status, "OPEN");
    assert_eq!(items[3].details, "passed=1/2");
    assert!(!refresh_all_pass(&e, &dash, &burnin, &ledger, &freeze));
}

#[test]
fn refresh_ignores_guild_and_site_diff_reports() {
    let e = evidence();
    let dash = regression_dashboard_at(&e, "unix:1".to_string());
    let burnin = burnin_window_at(&determinism(20, 0), &fields(&[]), "unix:1".to_string());
    let ledger = build_deviation_ledger(&e, &dash, &burnin);
    let freeze = baseline_freeze_at(Vec::new(), "unix:1".to_string());
    // The dashboard itself fails on those two components, so the run fails.
    assert!(!refresh_all_pass(&e, &dash, &burnin, &ledger, &freeze));
}

#[test]
fn fnv1a64_known_values() {
    assert_eq!(fnv1a64(b""), 0xcbf29ce484222325);
    assert_eq!(fnv1a64(b"a"), 0xaf63dc4c8601ec8c);
    assert_eq!(fnv1a64(b"foobar"), 0x85944171f73967e8);
}

#[test]
fn snapshots_and_freeze() {
    let present = artifact_snapshot("target/a.json", &Some(b"a".to_vec()));
    assert!(present.present);
    assert_eq!(present.size_bytes, 1);
    assert_eq!(present.hash_fnv1a64, "af63dc4c8601ec8c");
    let empty = artifact_snapshot("target/e.json", &Some(Vec::new()));
    assert_eq!(empty.hash_fnv1a64, "cbf29ce484222325");
    let missing = artifact_snapshot("target/b.json", &None);
    assert!(!missing.present);
    assert_eq!(missing.size_bytes, 0);
    assert_eq!(missing.hash_fnv1a64, "missing");
    let f = baseline_freeze_at(vec![present.clone(), missing], "unix:2".to_string());
    assert_eq!(f.total, 2);
    assert_eq!(f.present, 1);
    assert_eq!(f.missing, 1);
    assert_eq!(f.status, "FAIL");
    let ok = build_baseline_freeze(vec![present]);
    assert_eq!(ok.status, "PASS");
    let required = baseline_required_artifacts();
    assert_eq!(required.len(), 58);
}

#[test]
fn command_outcomes_and_matrix() {
    assert_eq!(classify_command_outcome(&None), CommandOutcome::Partial);
    assert_eq!(
        classify_command_outcome(&Some(("unsupported legacy command `Z`".to_string(), true))),
        CommandOutcome::Missing
    );
    assert_eq!(classify_command_outcome(&Some(("ok".to_string(), false))), CommandOutcome::Partial);
    assert_eq!(classify_command_outcome(&Some(("ok".to_string(), true))), CommandOutcome::Implemented);
    let m = command_matrix_at(
        &vec![CommandOutcome::Implemented, CommandOutcome::Partial, CommandOutcome::Missing, CommandOutcome::Implemented],
        "unix:6".to_string(),
    );
    assert_eq!(m.total, 4);
    assert_eq!(m.implemented_same_key, 2);
    assert_eq!(m.partial, 1);
    assert_eq!(m.missing, 1);
    assert_eq!(m.implemented_different_key, 0);
    assert_eq!(m.key_conflict, 0);
    assert!(!m.pass);
    assert!(build_command_matrix(&vec![CommandOutcome::Implemented]).pass);
    let tokens = command_matrix_tokens();
    assert_eq!(tokens.len(), 41);
}

#[test]
fn required_freeze_records_each_required_file() {
    let paths = omega_tools::refresh::baseline_required_artifacts();
    let mut contents: Vec<Option<Vec<u8>>> = vec![None; paths.len()];
    contents[0] = Some(b"abc".to_vec());
    let f = omega_tools::refresh::required_baseline_freeze_at(&contents, "unix:1".to_string());
    assert_eq!(f.total, paths.len());
    assert_eq!(f.present, 1);
    assert_eq!(f.missing, paths.len() - 1);
    assert_eq!(f.status, "FAIL");
    assert_eq!(f.artifacts[0].path, paths[0]);
    assert_eq!(f.artifacts[0].size_bytes, 3);
    assert_eq!(f.artifacts[0].hash_fnv1a64, "e71fa2190541574b");
    assert_eq!(f.artifacts[1].hash_fnv1a64, "missing");
}
