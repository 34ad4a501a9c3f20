use omega_tools::closure::{
    board_markdown, build_defect_board, check_run, closure_checks, closure_defects, defect_board_at,
    format_command, trim_tail, CheckRun, CheckSpec, ClosureEvidence, DiffOutcome, CHECK_TAIL_LINES,
};
use omega_tools::fields::{FieldValue, JsonFields};
use omega_tools::rebaseline::{handcrafted_allowlist, normalize_tags, should_rebaseline};
use omega_tools::replay::FixtureMetadata;

fn fields(entries: &[(&str, FieldValue)]) -> JsonFields {
    JsonFields { entries: entries.iter().map(|(k, v)| (k.to_string(), v.clone())).collect() }
}

fn run(id: &str, pass: bool) -> CheckRun {
    CheckRun {
        id: id.to_string(),
        command: format!("cargo run -p omega-tools --bin {id}"),
        pass,
        exit_code: if pass { 0 } else { 1 },
        duration_ms: 12,
        stdout_tail: String::new(),
        stderr_tail: String::new(),
    }
}

#[test]
fn command_line_and_tails() {
    assert_eq!(format_command(&vec!["run".to_string(), "-p".to_string(), "x".to_string()]), "cargo run -p x");
    assert_eq!(format_command(&Vec::new()), "cargo");
    assert_eq!(trim_tail("  a\nb  \n", 10), "a\nb");
    assert_eq!(trim_tail("1\n2\n3\n4", 2), "3\n4");
    assert_eq!(CHECK_TAIL_LINES, 10);
}

#[test]
fn closure_runs_nine_tools() {
    let checks = closure_checks();
    assert_eq!(checks.len(), 9);
    assert_eq!(checks[0].id, "legacy_guild_site_contract");
    assert_eq!(checks[8].id, "parity_certify");
    assert_eq!(
        checks[3].args,
        vec!["run", "-p", "omega-tools", "--bin", "site_branch_diff"].iter().map(|s| s.to_string()).collect::<Vec<_>>()
    );
}

#[test]
fn check_run_records_outcome() {
    let spec = CheckSpec { id: "x".to_string(), args: vec!["run".to_string()] };
    let out: String = (1..=12).map(|i| format!("line{i}\n")).collect();
    let r = check_run(&spec, false, None, 1500, &out, "oops\n");
    assert_eq!(r.id, "x");
    assert_eq!(r.command, "cargo run");
    assert!(!r.pass);
    assert_eq!(r.exit_code, -1);
    assert_eq!(r.duration_ms, 1500);
    assert_eq!(r.stdout_tail, "line3\nline4\nline5\nline6\nline7\nline8\nline9\nline10\nline11\nline12");
    assert_eq!(r.stderr_tail, "oops");
    let ok = check_run(&spec, true, Some(0), 1, "", "");
    assert_eq!(ok.exit_code, 0);
    assert!(ok.pass);
}

#[test]
fn defects_collect_failures_in_order() {
    let runs = vec![run("a", true), run("b", false)];
    let e = ClosureEvidence {
        diff_rows: Some(vec![
            DiffOutcome { service: "merc".to_string(), pass: true, details: "ok".to_string() },
            DiffOutcome { service: "temple".to_string(), pass: false, details: "gates 1 < 2".to_string() },
        ]),
        guild_live_check: Some(fields(&[
            ("pass", FieldValue::Bool(false)),
            ("failed", FieldValue::Unsigned(2)),
            ("total", FieldValue::Unsigned(9)),
        ])),
        blackbox_smoke: None,
        certification: Some(fields(&[("pass", FieldValue::Bool(true))])),
    };
    let ds = closure_defects(&runs, &e);
    let summary: Vec<(String, String, String)> =
        ds.iter().map(|d| (d.id.clone(), d.source.clone(), d.details.clone())).collect();
    assert_eq!(
        summary,
        vec![
            ("run-b".to_string(), "b".to_string(), "command failed: cargo run -p omega-tools --bin b".to_string()),
            ("branch-temple".to_string(), "site_branch_diff".to_string(), "gates 1 < 2".to_string()),
            ("guild-live-check".to_string(), "guild_live_check".to_string(), "failed=2 of total=9".to_string()),
            (
                "service-branch-blackbox-smoke".to_string(),
                "service_branch_blackbox_smoke".to_string(),
                "missing target/service-branch-blackbox-smoke.json".to_string()
            ),
        ]
    );
    assert!(ds.iter().all(|d| d.severity == "P0" && d.status == "OPEN"));
    let none_missing = ClosureEvidence { diff_rows: None, guild_live_check: None, blackbox_smoke: None, certification: None };
    let ds2 = closure_defects(&Vec::new(), &none_missing);
    assert_eq!(ds2.len(), 2);
    assert_eq!(ds2[1].details, "missing target/certification/parity-certify.json");
}

#[test]
fn board_counts_and_markdown() {
    let runs = vec![run("a", true), run("b", false)];
    let e = ClosureEvidence { diff_rows: None, guild_live_check: None, blackbox_smoke: Some(fields(&[("pass", FieldValue::Bool(true))])), certification: Some(fields(&[("pass", FieldValue::Bool(true))])) };
    let items = closure_defects(&runs, &e);
    let b = defect_board_at(runs, items, "unix:7".to_string());
    assert_eq!(b.total_checks, 2);
    assert_eq!(b.failed_checks, 1);
    assert_eq!(b.open, 1);
    assert_eq!(b.closed, 0);
    assert_eq!(
        board_markdown(&b),
        "# Guild Parity Defect Board\n\n- generated_at_utc: `unix:7`\n- total_checks: `2`\n- failed_checks: `1`\n- open: `1`\n- closed: `0`\n\n## Defects\n\n\
| ID | Severity | Source | Status | Details |\n|---|---|---|---|---|\n\
| run-b | P0 | b | OPEN | command failed: cargo run -p omega-tools --bin b |\n\n\
## Check Runs\n\n| Check | Status | Exit | Duration (ms) |\n|---|---|---:|---:|\n\
| a | PASS | 0 | 12 |\n| b | FAIL | 1 | 12 |\n"
    );
    let clean = build_defect_board(vec![run("a", true)], Vec::new());
    assert!(board_markdown(&clean).contains("## Defects\n\n- none\n\n## Check Runs"));
    assert!(clean.generated_at_utc.starts_with("unix:"));
}

fn fixture(name: &str, source: &str, version: u16) -> FixtureMetadata {
    FixtureMetadata {
        contract_version: version,
        active: true,
        source: source.to_string(),
        name: name.to_string(),
        family: "f".to_string(),
        tags: Vec::new(),
    }
}

#[test]
fn rebaseline_follows_allowlist_and_source() {
    assert!(handcrafted_allowlist("r3_site_bank"));
    assert!(!handcrafted_allowlist("r3_site_unknown"));
    assert!(should_rebaseline(&fixture("pickup_drop_cycle", "legacy_handcrafted", 1)));
    assert!(should_rebaseline(&fixture("pickup_drop_cycle", "other", 1)));
    assert!(!should_rebaseline(&fixture("pickup_drop_cycle", "generated_matrix", 1)));
    assert!(!should_rebaseline(&fixture("pickup_drop_cycle", "legacy_handcrafted", 2)));
    assert!(!should_rebaseline(&fixture("walk", "legacy_handcrafted", 1)));
}

#[test]
fn generated_tags_are_sorted_and_unique() {
    let tags = vec!["b".to_string(), "a".to_string(), "b".to_string()];
    assert_eq!(normalize_tags(&tags, false), vec!["a".to_string(), "b".to_string()]);
    assert_eq!(
        normalize_tags(&tags, true),
        vec!["a".to_string(), "b".to_string(), "perf_smoke".to_string()]
    );
    assert_eq!(normalize_tags(&vec!["perf_smoke".to_string()], true), vec!["perf_smoke".to_string()]);
}
