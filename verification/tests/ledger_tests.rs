use omega_tools::ledger::{build_ledger, build_ledger_at, catalog_entries, dedup_entries, CatalogCounts};
use omega_tools::mechanics::{
    CoverageKind, MechanicEntry, MechanicParityRow, MechanicTier, MechanicsParityMatrix,
    MechanicsSmokeReport, MissingDefect, MissingDefectBoard, ParityStatus, SmokeCheck,
};
use omega_tools::reports::{
    defect_board_to_markdown, escape_yaml, ledger_to_markdown, mapping_yaml, matrix_to_markdown,
    resolution, sanitize_table, smoke_to_markdown, write_mapping_yaml,
};

fn entry(id: &str, name: &str, tier: MechanicTier, domain: &str) -> MechanicEntry {
    MechanicEntry {
        id: id.to_string(),
        name: name.to_string(),
        tier,
        domain: domain.to_string(),
        legacy_anchor: format!("src/{id}.c:1"),
        trigger: "t|x".to_string(),
        preconditions: "p".to_string(),
        state_delta: "s".to_string(),
        outcomes: "o".to_string(),
        side_effects: "e".to_string(),
        coverage_kind: CoverageKind::Runtime,
    }
}

#[test]
fn dedup_keeps_first_of_each_id_in_id_order() {
    let es = vec![
        entry("b", "first", MechanicTier::Main, "x"),
        entry("a", "only", MechanicTier::Rest, "y"),
        entry("b", "second", MechanicTier::Main, "x"),
        entry("c", "only", MechanicTier::Main, "x"),
    ];
    let out = dedup_entries(es);
    let ids: Vec<&str> = out.iter().map(|e| e.id.as_str()).collect();
    assert_eq!(ids, vec!["a", "b", "c"]);
    assert_eq!(out[1].name, "first");
    let again = dedup_entries(out.clone());
    assert_eq!(again, out);
    assert!(dedup_entries(Vec::new()).is_empty());
}

#[test]
fn ledger_counts_by_tier_and_domain() {
    let es = vec![
        entry("a", "a", MechanicTier::Rest, "zeta"),
        entry("b", "b", MechanicTier::Main, "alpha"),
        entry("c", "c", MechanicTier::Main, "zeta"),
    ];
    let l = build_ledger_at("legacy", es.clone(), "unix:7".to_string());
    assert_eq!(l.source, "legacy");
    assert_eq!(l.generated_at_utc, "unix:7");
    assert_eq!(l.total, 3);
    assert_eq!(l.by_tier, vec![(MechanicTier::Main, 2), (MechanicTier::Rest, 1)]);
    assert_eq!(l.by_domain, vec![("alpha".to_string(), 1), ("zeta".to_string(), 2)]);
    assert_eq!(l.entries, es);
    let sum_tier: usize = l.by_tier.iter().map(|(_, n)| n).sum();
    let sum_domain: usize = l.by_domain.iter().map(|(_, n)| n).sum();
    assert_eq!(sum_tier, l.total);
    assert_eq!(sum_domain, l.total);
    let stamped = build_ledger("legacy", es);
    assert!(stamped.generated_at_utc.starts_with("unix:"));
}

#[test]
fn ledger_markdown_lists_counts_and_entries() {
    let es = vec![entry("a", "a", MechanicTier::Main, "dom")];
    let l = build_ledger_at("legacy", es, "unix:1".to_string());
    let md = ledger_to_markdown(&l, "Ledger");
    let expected = "# Ledger\n\n- source: `legacy`\n- generated_at_utc: `unix:1`\n- total: `1`\n\n\
## Counts by Tier\n\n| tier | count |\n|---|---:|\n| Main | 1 |\n\
\n## Counts by Domain\n\n| domain | count |\n|---|---:|\n| dom | 1 |\n\
\n## Entries\n\n| id | tier | domain | coverage | anchor | trigger |\n|---|---|---|---|---|---|\n\
| a | Main | dom | Runtime | `src/a.c:1` | t\\|x |\n";
    assert_eq!(md, expected);
}

#[test]
fn table_cells_and_yaml_scalars() {
    assert_eq!(sanitize_table("  a|b\nc\r "), "a\\|b c");
    assert_eq!(sanitize_table("\n"), "");
    assert_eq!(escape_yaml("it's"), "it''s");
    assert_eq!(escape_yaml("''"), "''''");
    assert_eq!(resolution(ParityStatus::Exact), "implemented");
    assert_eq!(resolution(ParityStatus::Partial), "partial_coverage_needs_branch_completion");
    assert_eq!(resolution(ParityStatus::ExcludedNonGameplay), "excluded_non_gameplay_surface");
}

fn row(id: &str, status: ParityStatus) -> MechanicParityRow {
    MechanicParityRow {
        mechanic_id: id.to_string(),
        legacy_present: true,
        rust_present: true,
        parity_status: status,
        evidence_static: "st".to_string(),
        evidence_dynamic: "dy".to_string(),
        notes: String::new(),
        tier: MechanicTier::Secondary,
        domain: "d'x".to_string(),
    }
}

#[test]
fn matrix_markdown_lists_statuses_and_rows() {
    let m = MechanicsParityMatrix {
        generated_at_utc: "unix:2".to_string(),
        total: 1,
        by_status: vec![(ParityStatus::Exact, 1)],
        unknown: 0,
        main_non_equivalent: 0,
        unresolved_gameplay: 0,
        gameplay_excluded: 0,
        pass: true,
        rows: vec![row("command:q", ParityStatus::Exact)],
    };
    let md = matrix_to_markdown(&m, "Matrix");
    let expected = "# Matrix\n\n- generated_at_utc: `unix:2`\n- total: `1`\n- pass: `true`\n- unknown: `0`\n\
- main_non_equivalent: `0`\n- unresolved_gameplay: `0`\n- gameplay_excluded: `0`\n\n\
## Counts by Status\n\n| status | count |\n|---|---:|\n| Exact | 1 |\n\
\n## Rows\n\n| mechanic_id | status | tier | domain | static evidence | dynamic evidence |\n|---|---|---|---|---|---|\n\
| command:q | Exact | Secondary | d'x | st | dy |\n";
    assert_eq!(md, expected);
}

#[test]
fn defect_board_and_smoke_markdown() {
    let b = MissingDefectBoard {
        generated_at_utc: "unix:3".to_string(),
        total: 1,
        open: 1,
        defects: vec![MissingDefect {
            id: "D1".to_string(),
            severity: "P0".to_string(),
            tier: MechanicTier::Main,
            domain: "dom".to_string(),
            mechanic_id: "command:q".to_string(),
            parity_status: ParityStatus::Missing,
            anchor: "a.c:9".to_string(),
            notes: String::new(),
        }],
    };
    assert_eq!(
        defect_board_to_markdown(&b, "Board"),
        "# Board\n\n- generated_at_utc: `unix:3`\n- total: `1`\n- open: `1`\n\n\
| id | severity | tier | domain | status | mechanic_id | anchor |\n|---|---|---|---|---|---|---|\n\
| D1 | P0 | Main | dom | Missing | command:q | `a.c:9` |\n"
    );
    let r = MechanicsSmokeReport {
        generated_at_utc: "unix:4".to_string(),
        total: 1,
        passed: 0,
        failed: 1,
        pass: false,
        checks: vec![SmokeCheck { id: "c1".to_string(), passed: false, details: "bad|x".to_string() }],
    };
    assert_eq!(
        smoke_to_markdown(&r, "Smoke"),
        "# Smoke\n\n- generated_at_utc: `unix:4`\n- total: `1`\n- passed: `0`\n- failed: `1`\n- pass: `false`\n\n\
| id | passed | details |\n|---|---|---|\n| c1 | false | bad\\|x |\n"
    );
}

#[test]
fn mapping_yaml_takes_anchor_from_legacy_ledger() {
    let mut legacy_entry = entry("command:q", "q", MechanicTier::Main, "dom");
    legacy_entry.legacy_anchor = "help'1".to_string();
    let legacy = build_ledger_at("legacy", vec![legacy_entry], "unix:0".to_string());
    let rows = vec![row("command:q", ParityStatus::Equivalent), row("command:z", ParityStatus::Unknown)];
    let y = mapping_yaml(&rows, &legacy, "unix:9");
    let expected = [
        "version: 1",
        "generated_at_utc: 'unix:9'",
        "rows:",
        "  - mechanic_id: 'command:q'",
        "    tier: 'secondary'",
        "    domain: 'd''x'",
        "    legacy_anchor: 'help''1'",
        "    parity_status: 'equivalent'",
        "    resolution: 'implemented'",
        "  - mechanic_id: 'command:z'",
        "    tier: 'secondary'",
        "    domain: 'd''x'",
        "    legacy_anchor: ''",
        "    parity_status: 'unknown'",
        "    resolution: 'investigate_unmapped_behavior'",
        "",
    ]
    .join("\n");
    assert_eq!(y, expected);
    let stamped = write_mapping_yaml(&rows, &legacy);
    assert!(stamped.starts_with("version: 1\ngenerated_at_utc: 'unix:"));
}

#[test]
fn catalog_entries_name_catalog_sizes() {
    let entries = catalog_entries(&CatalogCounts {
        spells: 42,
        scrolls: 24,
        potions: 18,
        weapons: 41,
        artifacts: 26,
        monsters: 151,
    });
    assert_eq!(entries.len(), 3);
    assert_eq!(entries[0].id, "rust.catalog.spells");
    assert_eq!(entries[0].name, "spells=42");
    assert_eq!(entries[1].name, "items_scrolls=24 potions=18 weapons=41 artifacts=26");
    assert_eq!(entries[2].tier, MechanicTier::Secondary);
    assert_eq!(entries[2].domain, "monster_ai_and_behaviors");
    assert!(entries.iter().all(|e| e.coverage_kind == CoverageKind::Data));
    assert_eq!(entries[1].legacy_anchor, "omega_content::legacy_catalogs");
}
