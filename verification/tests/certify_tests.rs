use omega_tools::certify::{
    cert_defect_board, cert_defect_board_at, certification_baseline_at, certification_components,
    certification_required, certify_report, certify_report_at, collision_check, BaselineArtifact,
    CertificationEvidence, CoverageSummary, GenericPass, MappingSummary,
};
use omega_tools::fields::{FieldValue, JsonFields};

fn fields(entries: &[(&str, FieldValue)]) -> JsonFields {
    JsonFields { entries: entries.iter().map(|(k, v)| (k.to_string(), v.clone())).collect() }
}

fn artifact(path: &str, exists: bool) -> BaselineArtifact {
    BaselineArtifact { path: path.to_string(), exists, size_bytes: if exists { 10 } else { 0 } }
}

fn generic(pass: bool) -> GenericPass {
    GenericPass { pass, total: Some(4), passed: Some(if pass { 4 } else { 3 }), failed: Some(if pass { 0 } else { 1 }) }
}

fn evidence() -> CertificationEvidence {
    CertificationEvidence {
        baseline: certification_baseline_at(vec![artifact("a", true), artifact("b", true)], "unix:1".to_string()),
        mapping: MappingSummary { pass: true, unresolved: 0, unknown: 0 },
        mechanics_diff: generic(true),
        service_diff: generic(true),
        coverage: CoverageSummary { pass: true, missing: 0 },
        blackbox: generic(true),
        collision: Some(fields(&[("branches", FieldValue::Array(vec![]))])),
    }
}

#[test]
fn required_artifacts_and_baseline() {
    let req = certification_required();
    assert_eq!(req.len(), 9);
    assert_eq!(req[2], "target/certification/contracts/mechanics_mapping.json");
    let b = certification_baseline_at(vec![artifact("a", true), artifact("b", false)], "unix:1".to_string());
    assert_eq!((b.total, b.present, b.missing), (2, 1, 1));
    assert!(!b.pass);
}

#[test]
fn collision_guard() {
    assert_eq!(collision_check(&None), (false, "missing target/rust-site-branch-contract.json".to_string()));
    assert_eq!(
        collision_check(&Some(fields(&[("branches", FieldValue::Array(vec![]))]))),
        (true, "has_branches=true has_checks=false".to_string())
    );
    assert_eq!(
        collision_check(&Some(fields(&[("branches", FieldValue::Array(vec![])), ("checks", FieldValue::Array(vec![]))]))),
        (false, "has_branches=true has_checks=true".to_string())
    );
}

#[test]
fn components_and_report() {
    let mut e = evidence();
    let cs = certification_components(&e);
    assert_eq!(cs.len(), 7);
    assert!(cs.iter().all(|c| c.pass));
    assert_eq!(cs[0].details, "present=2/2 missing=0");
    assert_eq!(cs[1].details, "pass=true unknown=0 unresolved=0");
    assert_eq!(cs[2].details, "pass=true passed=4/4 failed=0");
    assert_eq!(cs[4].details, "pass=true missing=0");
    let r = certify_report_at(cs, "unix:2".to_string());
    assert!(r.pass);
    assert_eq!((r.total, r.passed, r.failed), (7, 7, 0));

    e.mapping.unknown = 2;
    e.blackbox = GenericPass { pass: false, total: None, passed: None, failed: None };
    let r = certify_report(&e);
    assert!(!r.pass);
    assert_eq!(r.failed, 2);
    let board = cert_defect_board_at(&r, "unix:5".to_string());
    assert_eq!(board.total, 2);
    assert_eq!(board.open, 2);
    assert_eq!(board.defects[0].id, "CERT-mapping");
    assert_eq!(board.defects[0].severity, "high");
    assert_eq!(board.defects[0].area, "certification");
    assert_eq!(board.defects[0].title, "Certification component failed: mapping");
    assert_eq!(board.defects[0].details, "pass=true unknown=2 unresolved=0");
    assert_eq!(board.defects[1].details, "pass=false passed=0/0 failed=0");
    assert!(cert_defect_board(&r).generated_at_utc.starts_with("unix:"));
}
