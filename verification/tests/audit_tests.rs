use omega_tools::audit::{
    audit_checks, audit_markdown, audit_report, audit_report_at, check_absent, check_bootstrap_fallback_absent,
    falls_back, frontend_paths, production_source, push_audit_row, AuditCheck, AuditSources,
};

#[test]
fn production_source_stops_at_test_module() {
    assert_eq!(production_source("fn a() {}\n#[cfg(test)]\nmod tests {}"), "fn a() {}");
    assert_eq!(production_source("fn a() {}"), "fn a() {}");
}

#[test]
fn absent_check_lists_hits_in_order() {
    let forbidden = vec!["x".to_string(), "yy".to_string(), "zz".to_string()];
    let hit = check_absent("src/a.rs", "id", "zz and x", &forbidden);
    assert!(!hit.pass);
    assert_eq!(hit.details, "src/a.rs: forbidden signatures found: x, zz");
    let clean = check_absent("src/a.rs", "id", "nothing", &forbidden);
    assert!(clean.pass);
    assert_eq!(clean.details, "src/a.rs: no forbidden signature detected");
}

#[test]
fn fallback_detection() {
    assert!(falls_back("let s = bootstrap_game_state_from_default_content().unwrap_or_default();"));
    assert!(falls_back(
        "match bootstrap_game_state_from_default_content() { Err(_) => GameState::default(), Ok(s) => s }"
    ));
    assert!(!falls_back("let s = bootstrap_game_state_from_default_content()?;"));
    assert!(!falls_back(
        "fn f() {}\n#[cfg(test)]\nmod t { fn g() { bootstrap_game_state_from_default_content().unwrap_or_default(); } }"
    ));
    let files = vec![
        ("a.rs".to_string(), "bootstrap_game_state_from_default_content().unwrap_or_default()".to_string()),
        ("b.rs".to_string(), "clean".to_string()),
        ("c.rs".to_string(), "match bootstrap_game_state_from_default_content\nGameState::default()".to_string()),
    ];
    let c = check_bootstrap_fallback_absent(&files);
    assert_eq!(c.id, "bootstrap_fallback_to_default_absent");
    assert!(!c.pass);
    assert_eq!(c.details, "fallback signatures present in: a.rs, c.rs");
    assert_eq!(frontend_paths().len(), 4);
}

#[test]
fn audit_report_over_sources() {
    let s = AuditSources {
        content_lib: "fn city() {}".to_string(),
        core_lib: "// frontend handles this command".to_string(),
        refresh_source: "let p = \"target/true-x.json\";".to_string(),
        frontends: vec![("crates/omega-tui/src/lib.rs".to_string(), "ok".to_string())],
    };
    let checks = audit_checks(&s);
    let ids: Vec<&str> = checks.iter().map(|c| c.id.as_str()).collect();
    assert_eq!(
        ids,
        vec![
            "city_placeholder_assignment_removed",
            "bootstrap_fallback_to_default_absent",
            "no_generic_noop_legacy_resolution",
            "true_refresh_not_proxy_fed"
        ]
    );
    let r = audit_report_at(checks, "unix:1".to_string());
    assert_eq!((r.total, r.passed, r.failed), (4, 3, 1));
    assert_eq!(r.status, "FAIL");
    let md = audit_markdown(&r);
    assert!(md.starts_with("# Strict Placeholder Audit\n\n- Status: FAIL\n- Passed: 3/4\n\n| Check | Status | Details |\n|---|---|---|\n"));
    assert!(md.contains(
        "| no_generic_noop_legacy_resolution | FAIL | crates/omega-core/src/lib.rs: forbidden signatures found: frontend handles this command |\n"
    ));
    let stamped = audit_report(&s);
    assert!(stamped.generated_at_utc.starts_with("unix:"));
}

#[test]
fn audit_rows_escape_pipes() {
    let mut out: Vec<char> = Vec::new();
    push_audit_row(&mut out, &AuditCheck { id: "c".to_string(), pass: true, details: "a|b".to_string() });
    assert_eq!(out.iter().collect::<String>(), "| c | PASS | a\\|b |\n");
}
