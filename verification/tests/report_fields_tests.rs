use omega_tools::clock::{now_utc_unix, unix_stamp};
use omega_tools::deviations::{
    deviation, deviation_markdown, ledger_from_items_at, tracked_deviation_ledger, tracked_deviations,
    DeviationEvidence,
};
use omega_tools::fields::{
    artifact_is_pass, artifact_pass, bool_field, has_field, pass_field, replay_active_failed,
    replay_active_total, usize_field, FieldValue, JsonFields,
};

fn fields(entries: &[(&str, FieldValue)]) -> JsonFields {
    JsonFields { entries: entries.iter().map(|(k, v)| (k.to_string(), v.clone())).collect() }
}

fn passing() -> Option<JsonFields> {
    Some(fields(&[("pass", FieldValue::Bool(true))]))
}

#[test]
fn field_reads_follow_json_accessors() {
    let f = fields(&[
        ("pass", FieldValue::Bool(true)),
        ("total", FieldValue::Unsigned(12)),
        ("failed", FieldValue::OtherNumber),
        ("status", FieldValue::Text("PASS".to_string())),
        ("pass", FieldValue::Bool(false)),
    ]);
    assert!(has_field(&f, "failed"));
    assert!(!has_field(&f, "missing"));
    assert!(bool_field(&f, "pass"));
    assert!(!bool_field(&f, "total"));
    assert_eq!(usize_field(&f, "total"), 12);
    assert_eq!(usize_field(&f, "failed"), 0);
    assert_eq!(usize_field(&f, "missing"), 0);
    assert!(pass_field(&f));
    assert!(pass_field(&fields(&[("status", FieldValue::Text("PASS".to_string()))])));
    assert!(!pass_field(&fields(&[("status", FieldValue::Text("FAIL".to_string()))])));
}

#[test]
fn replay_counts_prefer_active_fields() {
    let with_active = fields(&[
        ("total", FieldValue::Unsigned(10)),
        ("failed", FieldValue::Unsigned(4)),
        ("active_total", FieldValue::Unsigned(7)),
        ("failed_active", FieldValue::Null),
    ]);
    assert_eq!(replay_active_total(&with_active), 7);
    assert_eq!(replay_active_failed(&with_active), 0);
    let legacy = fields(&[("total", FieldValue::Unsigned(10)), ("failed", FieldValue::Unsigned(4))]);
    assert_eq!(replay_active_total(&legacy), 10);
    assert_eq!(replay_active_failed(&legacy), 4);
}

#[test]
fn artifact_verdicts() {
    assert!(artifact_pass(&passing()));
    assert!(!artifact_pass(&None));
    assert!(!artifact_pass(&Some(fields(&[]))));
    let pass_false_status_pass =
        fields(&[("pass", FieldValue::Bool(false)), ("status", FieldValue::Text("PASS".to_string()))]);
    assert!(!artifact_pass(&Some(pass_false_status_pass)));
    let pass_text_status_pass =
        fields(&[("pass", FieldValue::Text("yes".to_string())), ("status", FieldValue::Text("PASS".to_string()))]);
    assert!(artifact_pass(&Some(pass_text_status_pass)));
    assert!(artifact_is_pass("docs/plan.md", &None));
    assert!(!artifact_is_pass("target/report.json", &None));
    assert!(artifact_is_pass("target/report.json", &Some(fields(&[]))));
    assert!(!artifact_is_pass("target/report.json", &Some(fields(&[("pass", FieldValue::Bool(false))]))));
}

#[test]
fn deviation_item_is_closed_when_passing() {
    let d = deviation("T4", "P0", "Spell parity", "details", true);
    assert_eq!(d.id, "D-T4-001");
    assert_eq!(d.status, "CLOSED");
    assert_eq!(deviation("T4", "P0", "x", "y", false).status, "OPEN");
}

#[test]
fn ledger_counts_open_and_closed_items() {
    let items = vec![
        deviation("T1", "P0", "a", "b", true),
        deviation("T2", "P0", "c", "d", false),
        deviation("T3", "P1", "e", "f", false),
    ];
    let l = ledger_from_items_at(items, "unix:5".to_string());
    assert_eq!(l.summary.total, 3);
    assert_eq!(l.summary.open, 2);
    assert_eq!(l.summary.closed, 1);
    let md = deviation_markdown(&l);
    assert_eq!(
        md,
        "# True Parity Deviation Ledger\n\n- Generated: unix:5\n- Total: 3\n- Open: 2\n- Closed: 1\n\n\
| ID | Track | Severity | Status | Title |\n|---|---|---|---|---|\n\
| D-T1-001 | T1 | P0 | CLOSED | a |\n\
| D-T2-001 | T2 | P0 | OPEN | c |\n\
| D-T3-001 | T3 | P1 | OPEN | e |\n"
    );
}

#[test]
fn tracked_deviations_close_on_passing_evidence() {
    let mut e = DeviationEvidence {
        environment: passing(),
        command: None,
        spells: passing(),
        items: passing(),
        combat: passing(),
        site: passing(),
        progression: passing(),
        compatibility: passing(),
        frontend: passing(),
        dashboard: passing(),
        burnin: None,
        baseline: passing(),
    };
    let items = tracked_deviations(&e);
    assert_eq!(items.len(), 11);
    assert_eq!(items[0].track, "T2");
    assert_eq!(items[1].status, "OPEN");
    assert_eq!(items[9].track, "T11");
    assert_eq!(items[9].status, "OPEN");
    assert_eq!(items[10].status, "CLOSED");
    e.burnin = passing();
    let l = tracked_deviation_ledger(&e);
    assert_eq!(l.summary.open, 1);
    assert_eq!(l.summary.closed, 10);
    assert!(l.generated_at_utc.starts_with("unix:"));
}

#[test]
fn stamps_have_unix_prefix() {
    assert_eq!(unix_stamp(0), "unix:0");
    assert_eq!(unix_stamp(1700000000), "unix:1700000000");
    let now = now_utc_unix();
    assert!(now.starts_with("unix:"));
    assert!(now["unix:".len()..].parse::<u64>().unwrap() > 1_600_000_000);
}
