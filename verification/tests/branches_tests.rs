use omega_tools::branches::{
    collect_rows, contract_markdown, extract_function_body, extract_site_choice_segments, handler_for_service,
    is_effect_line, is_gate_line, normalize_ws, service_from_kind, site_branch_contract,
};
use omega_tools::sitediff::{count_kind, diff_row, site_branch_diff, site_diff_markdown, BranchRef};

const CORE: &str = "pub fn apply_merc_talk_command(state: &mut State) {\n    if state.gold > 5 {\n        state.gold -= 5;\n    }\n}\n\
fn apply_site_interaction_choice(state: &mut State, kind: SiteInteractionKind) {\n    match kind {\n        SiteInteractionKind::MercGuild => {\n            state.log.push(x);\n        }\n        SiteInteractionKind::Bank { .. } => {\n            state.gold = 0;\n        }\n    }\n}\n";

#[test]
fn handler_and_service_names() {
    assert_eq!(handler_for_service("merc"), "apply_merc_talk_command");
    assert_eq!(handler_for_service("palace"), "apply_palace_talk_command");
    assert_eq!(handler_for_service("bank"), "");
    assert_eq!(service_from_kind("Altar"), Some("temple"));
    assert_eq!(service_from_kind("Temple"), Some("temple"));
    assert_eq!(service_from_kind("ThievesGuild"), Some("thieves"));
    assert_eq!(service_from_kind("Bank"), None);
}

#[test]
fn whitespace_is_collapsed() {
    assert_eq!(normalize_ws("  if   a\t{ "), "if a {");
    assert_eq!(normalize_ws("   "), "");
}

#[test]
fn gate_and_effect_lines() {
    assert!(is_gate_line("if state.gold > 5 {"));
    assert!(is_gate_line("} else {"));
    assert!(is_gate_line("else {"));
    assert!(is_gate_line("match kind {"));
    assert!(is_gate_line("Some(x) => x,"));
    assert!(!is_gate_line("iffy(x);"));
    assert!(is_effect_line("state.gold -= 5;"));
    assert!(is_effect_line("state.gold = 0;"));
    assert!(!is_effect_line("let ok = state.gold == 0;"));
    assert!(is_effect_line("events.push(Event::Waited);"));
    assert!(is_effect_line("\"done\".to_string()"));
    assert!(!is_effect_line("let x = 1;"));
}

#[test]
fn function_bodies_are_brace_matched() {
    assert_eq!(
        extract_function_body(CORE, "apply_merc_talk_command"),
        Some("{\n    if state.gold > 5 {\n        state.gold -= 5;\n    }\n}".to_string())
    );
    assert_eq!(extract_function_body(CORE, "apply_order_talk_command"), None);
    assert_eq!(extract_function_body("fn open(x) { {", "open"), None);
}

#[test]
fn choice_segments_group_arms_by_service() {
    let segs = extract_site_choice_segments(CORE);
    assert_eq!(segs.len(), 1);
    assert_eq!(segs[0].0, "merc");
    assert_eq!(
        segs[0].1,
        "        SiteInteractionKind::MercGuild => {\n            state.log.push(x);\n        }\n"
    );
    assert!(extract_site_choice_segments("fn other() {}").is_empty());
}

#[test]
fn rows_number_gates_and_effects() {
    let rows = collect_rows("merc", "h", "{\n    if state.gold > 5 {\n        state.gold -= 5;\n    }\n}", "talk");
    let ids: Vec<&str> = rows.iter().map(|r| r.branch_id.as_str()).collect();
    assert_eq!(ids, vec!["merc/talk/entry", "merc/talk/gate/1", "merc/talk/effect/1"]);
    assert_eq!(rows[0].predicate, "always");
    assert_eq!(rows[1].predicate, "if state.gold > 5 {");
    assert_eq!(rows[2].kind, "effect");
    assert_eq!(rows[2].handler, "h");
}

#[test]
fn contract_lists_missing_handlers() {
    let c = site_branch_contract(CORE);
    assert_eq!(c.source, "crates/omega-core/src/lib.rs");
    assert!(!c.pass);
    assert_eq!(c.services, 10);
    // merc: 3 talk rows and 3 choice rows; 9 other services are missing.
    assert_eq!(c.total_branches, 6 + 9);
    assert_eq!(c.branches[3].branch_id, "merc/choice/entry");
    assert_eq!(c.branches[3].handler, "apply_site_interaction_choice::merc");
    assert_eq!(c.branches[4].predicate, "SiteInteractionKind::MercGuild => {");
    assert_eq!(c.branches[6].branch_id, "thieves/missing");
    assert_eq!(c.branches[6].predicate, "handler_not_found");
    let md = contract_markdown(&c);
    assert!(md.starts_with(
        "# Rust Site Branch Contract\n\n- services: `10`\n- total_branches: `15`\n\n| Branch ID | Service | Handler | Kind | Predicate |\n|---|---|---|---|---|\n| merc/talk/entry | merc | apply_merc_talk_command | entry | always |\n"
    ));
    assert!(md.ends_with("| monastery/missing | monastery | apply_monastery_talk_command | missing | handler_not_found |\n"));
}

#[test]
fn contract_markdown_escapes_pipes() {
    let mut c = site_branch_contract(CORE);
    c.branches.truncate(1);
    c.branches[0].predicate = "a || b".to_string();
    let md = contract_markdown(&c);
    assert!(md.ends_with("| merc/talk/entry | merc | apply_merc_talk_command | entry | a \\|\\| b |\n"));
}

fn branch(id: &str, service: &str, kind: &str) -> BranchRef {
    BranchRef { branch_id: id.to_string(), service: service.to_string(), kind: kind.to_string() }
}

#[test]
fn site_diff_compares_counts_per_service() {
    let legacy = vec![
        branch("l1", "merc", "gate"),
        branch("l2", "merc", "effect"),
        branch("l3", "temple", "gate"),
    ];
    let rust = vec![
        branch("r1", "merc", "gate"),
        branch("r2", "merc", "gate"),
        branch("r3", "merc", "effect"),
    ];
    assert_eq!(count_kind(&rust, "gate"), 2);
    let row = diff_row(&legacy, &rust, &"merc".chars().collect());
    assert_eq!(row.legacy_total, 2);
    assert_eq!(row.rust_total, 3);
    assert_eq!(row.legacy_gates, 1);
    assert_eq!(row.rust_gates, 2);
    assert!(row.pass);
    assert_eq!(row.details, "branch coverage aligned");
    let d = site_branch_diff(&legacy, &rust);
    assert_eq!(d.total, 2);
    assert_eq!(d.passed, 1);
    assert_eq!(d.failed, 1);
    assert_eq!(d.rows[0].service, "merc");
    let temple = &d.rows[1];
    assert_eq!(temple.service, "temple");
    assert!(!temple.pass);
    assert_eq!(
        temple.details,
        "missing_entry=false legacy_total=1 rust_total=0 legacy_gates=1 rust_gates=0 legacy_effects=0 rust_effects=0"
    );
    assert!(!d.pass);
    let only_rust = diff_row(&Vec::new(), &rust, &"merc".chars().collect());
    assert!(only_rust.pass);
    assert_eq!(
        only_rust.details,
        "no legacy branch rows in extractor scope; runtime mapped as explicit equivalent"
    );
    let md = site_diff_markdown(&d);
    assert!(md.starts_with("# Site Branch Diff"));
}
