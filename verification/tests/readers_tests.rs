use omega_tools::fields::{report_of_text, FieldValue};
use omega_tools::readers::{
    artifact_text_is_pass, classic_gap_of_text, closure_evidence_of_texts, deviation_evidence_of_texts,
    quest_scan_of_text, runtime_evidence_of_texts, DeviationTexts,
};
use omega_tools::smokes::runtime_checks;

fn some(t: &str) -> Option<String> {
    Some(t.to_string())
}

#[test]
fn json_text_parses_to_top_level_fields() {
    let f = report_of_text(&some(r#"{"pass": true, "total": 3, "ratio": 0.5, "rows": [1, {"a": 2}], "summary": {"x": 1}}"#))
        .unwrap();
    let get = |k: &str| f.entries.iter().find(|e| e.0 == k).map(|e| e.1.clone());
    assert_eq!(get("pass"), Some(FieldValue::Bool(true)));
    assert_eq!(get("total"), Some(FieldValue::Unsigned(3)));
    assert_eq!(get("ratio"), Some(FieldValue::OtherNumber));
    assert_eq!(get("rows"), Some(FieldValue::Array(vec!["1".to_string(), "{\"a\":2}".to_string()])));
    assert_eq!(get("summary"), Some(FieldValue::Object("{\"x\":1}".to_string())));
    assert!(report_of_text(&some("not json")).is_none());
    assert!(report_of_text(&some("[1, 2]")).unwrap().entries.is_empty());
    assert!(report_of_text(&None).is_none());
}

#[test]
fn gate_passes_non_json_and_reads_verdicts() {
    assert!(artifact_text_is_pass("docs/plan.md", &None));
    assert!(!artifact_text_is_pass("target/a.json", &None));
    assert!(!artifact_text_is_pass("target/a.json", &some("{broken")));
    assert!(artifact_text_is_pass("target/a.json", &some(r#"{"status": "PASS"}"#)));
    assert!(!artifact_text_is_pass("target/a.json", &some(r#"{"pass": false, "status": "PASS"}"#)));
    assert!(artifact_text_is_pass("target/a.json", &some(r#"{"other": 1}"#)));
}

#[test]
fn deviation_evidence_parses_each_report() {
    let texts = DeviationTexts {
        environment: some(r#"{"pass": true}"#),
        command: some("{oops"),
        spells: None,
        items: None,
        combat: None,
        site: None,
        progression: None,
        compatibility: None,
        frontend: None,
        dashboard: None,
        burnin: None,
        baseline: None,
    };
    let e = deviation_evidence_of_texts(&texts);
    assert!(e.environment.is_some());
    assert!(e.command.is_none());
    assert!(e.spells.is_none());
}

#[test]
fn quest_scan_needs_a_parsable_report_where_it_must_pass() {
    let s = quest_scan_of_text("target/q.json".to_string(), true, true, &some(r#"{"pass": true}"#)).unwrap();
    assert!(s.report.is_some());
    assert!(quest_scan_of_text("target/q.json".to_string(), true, true, &some("x")).is_none());
    assert!(quest_scan_of_text("target/q.json".to_string(), true, true, &None).is_none());
    let absent = quest_scan_of_text("target/q.json".to_string(), true, false, &None).unwrap();
    assert!(!absent.present);
    assert!(absent.report.is_none());
}

#[test]
fn closure_evidence_decodes_diff_rows() {
    let diff = some(r#"{"total": 2, "rows": [{"service": "bank", "pass": true, "details": "ok"}, {"service": "shop", "pass": false, "details": "missing"}]}"#);
    let e = closure_evidence_of_texts(&diff, &None, &some(r#"{"pass": false}"#), &None).unwrap();
    let rows = e.diff_rows.unwrap();
    assert_eq!(rows.len(), 2);
    assert_eq!(rows[1].service, "shop");
    assert!(!rows[1].pass);
    assert!(e.guild_live_check.is_none());
    assert!(e.blackbox_smoke.is_some());
    let no_rows = closure_evidence_of_texts(&some("{}"), &None, &None, &None).unwrap();
    assert_eq!(no_rows.diff_rows.unwrap().len(), 0);
    assert!(closure_evidence_of_texts(&some(r#"{"rows": [{"service": "x"}]}"#), &None, &None, &None).is_none());
    assert!(closure_evidence_of_texts(&None, &some("bad"), &None, &None).is_none());
}

#[test]
fn runtime_evidence_reads_nested_rows_and_steps() {
    let e = runtime_evidence_of_texts(
        r#"{"pass": true, "opener_dropped": true, "exited_after_opener": true}"#,
        r#"{"pass": true, "runtime_checks": [{"id": "inventory_modal_open", "passed": true}, {"id": "inventory_look_vs_show_parity", "passed": true}, 7]}"#,
        r#"{"pass": true, "passed": 11, "total": 11}"#,
        r#"{"pass": true, "steps": [1, 2, 3]}"#,
        r#"{"pass": true, "passed": 3, "total": 3}"#,
    )
    .unwrap();
    assert_eq!(e.quest_steps, 3);
    assert_eq!(e.service_passed, 11);
    let rows = e.inventory_rows.clone().unwrap();
    assert_eq!(rows.len(), 3);
    assert_eq!(rows[2].id, None);
    assert!(runtime_checks(&e).iter().all(|c| c.passed));
    assert!(runtime_evidence_of_texts("{}", "{}", "{}", "{}", "nope").is_none());
}

#[test]
fn classic_gap_counts_and_items() {
    let g = classic_gap_of_text(r#"{"summary": {"open_p0": 2, "open_p1": 1, "total_open": 3}, "items": [{"id": "G1"}]}"#)
        .unwrap();
    assert_eq!((g.open_p0, g.open_p1, g.total_open), (2, 1, 3));
    assert_eq!(g.items, FieldValue::Array(vec!["{\"id\":\"G1\"}".to_string()]));
    let bare = classic_gap_of_text("{}").unwrap();
    assert_eq!((bare.open_p0, bare.total_open), (0, 0));
    assert_eq!(bare.items, FieldValue::Array(vec![]));
    assert!(classic_gap_of_text("]").is_none());
}
