use omega_tools::gate::{
    artifact_is_stale, artifact_requirements, gate_markdown, gate_report, gate_report_at, parse_track_progress,
    track_status, ArtifactAge, ArtifactProbe, GATE_MAX_AGE_SECS,
};

const PLAN: &str = "# Plan\n\
## Track T1: Startup\n\
- [x] `T1-001` boot\n\
- [x] `T1-002` load\n\
## Track T2: Environment\n\
- [x] `T2-001` rooms\n\
- [ ] `T2-002` doors\n\
- [x] `T1-003` not this track\n\
## Notes\n\
- [ ] `T2-003` still under T2\n\
## Track X: Appendix\n\
- [ ] `T2-004` after a closing heading\n\
## Track T0: Governance\n\
text without items\n";

fn probe(path: &str, exists: bool, pass: bool, stale: bool) -> ArtifactProbe {
    ArtifactProbe { path: path.to_string(), exists, pass, stale }
}

#[test]
fn plan_progress_counts_checked_boxes_per_track() {
    let rows = parse_track_progress(PLAN);
    assert_eq!(
        rows,
        vec![("T0".to_string(), (0, 0)), ("T1".to_string(), (2, 2)), ("T2".to_string(), (1, 3))]
    );
    assert!(parse_track_progress("").is_empty());
}

#[test]
fn requirements_cover_every_track() {
    let reqs = artifact_requirements();
    assert_eq!(reqs.len(), 13);
    assert_eq!(reqs[0].0, "T0");
    assert_eq!(reqs[0].1.len(), 4);
    assert_eq!(reqs[3].0, "T11");
    assert_eq!(
        reqs[3].1,
        vec!["target/true-parity-regression-dashboard.json".to_string(), "target/true-burnin-window.json".to_string()]
    );
    assert_eq!(reqs[12].0, "T9");
}

#[test]
fn complete_track_reports_flawed_artifacts() {
    let reqs = artifact_requirements();
    let probes = vec![
        probe("target/true-parity-regression-dashboard.json", true, false, true),
    ];
    let st = track_status("T11", 3, 3, &reqs, &probes);
    assert!(st.complete);
    assert_eq!(st.missing_artifacts, vec!["target/true-burnin-window.json".to_string()]);
    assert_eq!(st.failing_artifacts, vec!["target/true-parity-regression-dashboard.json".to_string()]);
    assert_eq!(st.stale_artifacts, vec!["target/true-parity-regression-dashboard.json".to_string()]);
    let open = track_status("T11", 2, 3, &reqs, &probes);
    assert!(!open.complete);
    assert!(open.missing_artifacts.is_empty());
    assert_eq!(open.required_artifacts.len(), 2);
    let unknown = track_status("T99", 1, 1, &reqs, &probes);
    assert!(unknown.required_artifacts.is_empty());
}

#[test]
fn gate_fails_on_complete_tracks_with_flaws() {
    let reqs = artifact_requirements();
    let probes = vec![probe("target/true-startup-parity.json", true, true, false)];
    let r = gate_report_at(PLAN, &reqs, &probes, "unix:9".to_string());
    assert!(r.pass);
    assert_eq!(r.failed_tracks, 0);
    assert_eq!(r.tracks.len(), 3);
    let bad = vec![probe("target/true-startup-parity.json", true, false, false)];
    let r2 = gate_report_at(PLAN, &reqs, &bad, "unix:9".to_string());
    assert!(!r2.pass);
    assert_eq!(r2.failed_tracks, 1);
    let md = gate_markdown(&r2);
    assert_eq!(
        md,
        "# True Parity Gate\n\n- Generated: unix:9\n- Status: FAIL\n- Failed tracks: 1\n\n\
| Track | Done/Total | Complete | Missing | Failing | Stale |\n|---|---:|---|---|---|---|\n\
| T0 | 0/0 | NO | - | - | - |\n\
| T1 | 2/2 | YES | - | target/true-startup-parity.json | - |\n\
| T2 | 1/3 | NO | - | - | - |\n"
    );
    let stamped = gate_report(PLAN, &reqs, &bad);
    assert!(stamped.generated_at_utc.starts_with("unix:"));
}

#[test]
fn staleness_follows_age() {
    assert!(artifact_is_stale(&ArtifactAge::Unknown, GATE_MAX_AGE_SECS));
    assert!(!artifact_is_stale(&ArtifactAge::Future, GATE_MAX_AGE_SECS));
    assert!(!artifact_is_stale(&ArtifactAge::Elapsed { secs: 86400, nanos: 0 }, GATE_MAX_AGE_SECS));
    assert!(artifact_is_stale(&ArtifactAge::Elapsed { secs: 86400, nanos: 1 }, GATE_MAX_AGE_SECS));
    assert!(artifact_is_stale(&ArtifactAge::Elapsed { secs: 90000, nanos: 0 }, GATE_MAX_AGE_SECS));
}
