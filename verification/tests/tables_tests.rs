use omega_tools::refresh::MatrixCheck;
use omega_tools::replay::GridPosition;
use omega_tools::tables::{
    all_passed, check_table, check_table_markdown, labelled_table_markdown, log_tail, mechanics_smoke_markdown,
    startup_visual_markdown, timeline_markdown, BootstrapSources, StartupVisualReport, TimelineSmoke,
};

fn check(id: &str, passed: bool, details: &str) -> MatrixCheck {
    MatrixCheck { id: id.to_string(), passed, details: details.to_string() }
}

#[test]
fn check_table_counts_and_renders() {
    let t = check_table(vec![check("door", true, "opened"), check("exit", false, "a|b")]);
    assert_eq!((t.total, t.passed, t.failed, t.pass), (2, 1, 1, false));
    let md = check_table_markdown("True Startup Parity", &t);
    assert_eq!(
        md,
        "# True Startup Parity\n\n- Total checks: 2\n- Passed: 1\n- Failed: 1\n- Status: FAIL\n\n| Check | Status | Details |\n|---|---|---|\n| door | PASS | opened |\n| exit | FAIL | a\\|b |\n"
    );
    let labelled = labelled_table_markdown("T", &t, &vec!["Door".to_string(), "Exit".to_string()]);
    assert!(labelled.contains("| Door | PASS | opened |"));
    let empty = check_table(vec![]);
    assert!(empty.pass);
    assert_eq!(empty.total, 0);
}

#[test]
fn timeline_report_lists_checks_and_tail() {
    let r = TimelineSmoke {
        generated_at_utc: "unix:7".to_string(),
        pass: true,
        bootstrap: Some(BootstrapSources { source: "city.map".to_string(), spawn: "legacy".to_string() }),
        checks: vec![check("victory", true, "won")],
        timeline_tail: vec!["t1".to_string(), "t2".to_string()],
    };
    let md = timeline_markdown("Victory Parity Smoke", &r);
    assert_eq!(
        md,
        "# Victory Parity Smoke\n\n- Generated: unix:7\n- Status: PASS\n- Bootstrap: source=`city.map` spawn=`legacy`\n\n## Checks\n\n- victory: PASS (won)\n\n## Timeline Tail\n\n```text\nt1\nt2\n```\n"
    );
    let log = vec!["a".to_string(), "b".to_string(), "c".to_string()];
    assert_eq!(log_tail(&log, 2), vec!["b".to_string(), "c".to_string()]);
    assert_eq!(log_tail(&log, 5), log);
}

#[test]
fn startup_visual_and_mechanics_reports() {
    let r = StartupVisualReport {
        generated_at_utc: "unix:1".to_string(),
        pass: false,
        player_position: GridPosition { x: 3, y: -2 },
        map_window: vec!["#@#".to_string()],
        checks: vec![check("spawn", false, "off")],
    };
    let md = startup_visual_markdown(&r);
    assert!(md.starts_with("# Recovery Rampart Startup Visual\n\n- Generated: unix:1\n- Status: FAIL\n- Player position: (3, -2)\n"));
    assert!(md.contains("```text\n#@#\n```"));
    assert!(md.contains("- spawn: FAIL (off)"));
    let mech = mechanics_smoke_markdown(true, &vec![check("a", true, "x")]);
    assert_eq!(mech, "# Unimplemented Mechanics Smoke\n\n- status: PASS\n\n- a: PASS (x)\n");
    assert!(all_passed(&vec![check("a", true, ""), check("b", true, "")]));
    assert!(!all_passed(&vec![check("a", true, ""), check("b", false, "")]));
    assert!(all_passed(&vec![]));
}
