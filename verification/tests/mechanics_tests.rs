use omega_tools::mechanics::{
    canonical_key, classify_command_token, classify_define_name, classify_function_name,
    coverage_name, define_trigger, function_outcomes, function_preconditions,
    function_side_effects, function_state_delta, function_trigger, is_c_identifier,
    is_help_token, legacy_path, normalize_id_token, status_name, tier_name, CoverageKind,
    MechanicTier, ParityStatus, LEGACY_ROOT, MAPPING_PATH, TARGET_DIR,
};

fn chars(s: &str) -> Vec<char> {
    s.chars().collect()
}

#[test]
fn help_token_filter_accepts_expected_shapes() {
    assert!(is_help_token("q"));
    assert!(is_help_token("^x"));
    assert!(!is_help_token("word"));
    assert!(!is_help_token(""));
}

#[test]
fn c_identifier_filter_works() {
    assert!(is_c_identifier("l_arena"));
    assert!(is_c_identifier("S_MISSILE"));
    assert!(!is_c_identifier("9bad"));
    assert!(!is_c_identifier("bad-name"));
}

#[test]
fn canonical_key_normalizes_prefix() {
    assert_eq!(canonical_key("legacy.command.q"), "command:q");
    assert_eq!(canonical_key("legacy.function.l_arena"), "function:l_arena");
    assert_eq!(canonical_key("legacy.define.S_MISSILE"), "define:S_MISSILE");
}

#[test]
fn canonical_key_meets_runtime_and_legacy_ids() {
    assert_eq!(canonical_key("rust.command.q"), "command:q");
    assert_eq!(canonical_key("legacy.definition.l_arena"), "function:l_arena");
    assert_eq!(canonical_key("rust.function.l_arena"), "function:l_arena");
    assert_eq!(canonical_key("rust.enum.variant.Idle"), "rust.enum.variant.Idle");
    assert_eq!(canonical_key(""), "");
}

#[test]
fn help_token_edge_shapes() {
    assert!(is_help_token("^"));
    assert!(!is_help_token(":"));
    assert!(!is_help_token(" "));
    assert!(!is_help_token("ab"));
    assert!(is_help_token("^f"));
}

#[test]
fn c_identifier_edge_shapes() {
    assert!(is_c_identifier("_x9"));
    assert!(!is_c_identifier(""));
    assert!(!is_c_identifier("a b"));
}

#[test]
fn normalize_id_token_spells_out_specials() {
    assert_eq!(normalize_id_token("^x"), "ctrl_x");
    assert_eq!(normalize_id_token("a b.c"), "a_bdotc");
    assert_eq!(normalize_id_token("<>/?,@#"), "lt_gt_slashhelpcommaathash");
    assert_eq!(normalize_id_token("plain"), "plain");
    let once = normalize_id_token("<enter>");
    assert_eq!(once, "lt_entergt_");
    assert_eq!(normalize_id_token(&once), once);
}

#[test]
fn legacy_path_joins_below_root() {
    assert_eq!(legacy_path(&["src", "main.c"]), format!("{LEGACY_ROOT}/src/main.c"));
    assert_eq!(legacy_path(&[]), LEGACY_ROOT);
    assert_eq!(legacy_path(&["/abs", "x"]), "/abs/x");
    assert_eq!(TARGET_DIR, "target");
    assert_eq!(MAPPING_PATH, "docs/migration/MECHANICS_PARITY_MAPPING.yaml");
}

#[test]
fn debug_names_of_enums() {
    assert_eq!(tier_name(MechanicTier::Main), "Main");
    assert_eq!(tier_name(MechanicTier::Rest), "Rest");
    assert_eq!(coverage_name(CoverageKind::PlatformOnly), "PlatformOnly");
    assert_eq!(status_name(ParityStatus::ExcludedNonGameplay), "ExcludedNonGameplay");
}

#[test]
fn command_tokens_classify_by_domain() {
    assert_eq!(classify_command_token(&chars("m")), (MechanicTier::Main, "magic_and_items", CoverageKind::Runtime));
    assert_eq!(classify_command_token(&chars(",")), (MechanicTier::Main, "movement_and_traversal", CoverageKind::Runtime));
    assert_eq!(classify_command_token(&chars("T")), (MechanicTier::Main, "combat_and_interaction", CoverageKind::Runtime));
    assert_eq!(classify_command_token(&chars("C")), (MechanicTier::Main, "inventory_and_equipment", CoverageKind::Runtime));
    assert_eq!(classify_command_token(&chars("S")), (MechanicTier::Main, "session_and_victory", CoverageKind::Runtime));
    assert_eq!(classify_command_token(&chars("^k")), (MechanicTier::Tertiary, "wizard_and_debug", CoverageKind::Runtime));
    assert_eq!(classify_command_token(&chars("^p")), (MechanicTier::Tertiary, "ui_and_help", CoverageKind::Presentation));
    assert_eq!(classify_command_token(&chars("!")), (MechanicTier::Rest, "misc_commands", CoverageKind::Runtime));
}

#[test]
fn function_names_classify_by_prefix_and_keyword() {
    assert_eq!(classify_function_name(&chars("l_arena")), (MechanicTier::Secondary, "locations_and_sites", CoverageKind::Runtime));
    assert_eq!(classify_function_name(&chars("getspell")), (MechanicTier::Main, "magic_and_spells", CoverageKind::Runtime));
    assert_eq!(classify_function_name(&chars("weapon_hit")), (MechanicTier::Main, "items_and_equipment", CoverageKind::Runtime));
    assert_eq!(classify_function_name(&chars("monster_move")), (MechanicTier::Secondary, "monster_ai_and_behaviors", CoverageKind::Runtime));
    assert_eq!(classify_function_name(&chars("show_inventory")), (MechanicTier::Main, "inventory_and_equipment", CoverageKind::Runtime));
    assert_eq!(classify_function_name(&chars("enter_guild")), (MechanicTier::Secondary, "quests_and_progression", CoverageKind::Runtime));
    assert_eq!(classify_function_name(&chars("restore_game")), (MechanicTier::Main, "save_and_session", CoverageKind::Data));
    assert_eq!(classify_function_name(&chars("drawscreen")), (MechanicTier::Tertiary, "ui_and_logging", CoverageKind::Presentation));
    assert_eq!(classify_function_name(&chars("load_level")), (MechanicTier::Secondary, "world_and_generation", CoverageKind::Runtime));
    assert_eq!(classify_function_name(&chars("tick")), (MechanicTier::Rest, "misc_runtime", CoverageKind::Runtime));
}

#[test]
fn define_names_classify_by_prefix() {
    assert_eq!(classify_define_name(&chars("NUMSPELLS")), (MechanicTier::Main, "magic_and_spells", CoverageKind::Data));
    assert_eq!(classify_define_name(&chars("NUMTRAPS")), (MechanicTier::Secondary, "locations_and_sites", CoverageKind::Data));
    assert_eq!(classify_define_name(&chars("M_FIRE")), (MechanicTier::Secondary, "monster_ai_and_behaviors", CoverageKind::Data));
    assert_eq!(classify_define_name(&chars("O_X")), (MechanicTier::Main, "core_system_contract", CoverageKind::Data));
    assert_eq!(classify_define_name(&chars("ZZZ")), (MechanicTier::Rest, "misc_constants", CoverageKind::Data));
}

#[test]
fn function_descriptions_follow_name_shapes() {
    assert_eq!(function_trigger(&chars("s_fire")), "spell cast dispatch and effect resolution");
    assert_eq!(function_trigger(&chars("save_it")), "save/load lifecycle operation");
    assert_eq!(function_preconditions(&chars("i_use")), "selected item exists and command path allows use");
    assert_eq!(function_preconditions(&chars("inventory_control")), "inventory control loop active");
    assert_eq!(function_state_delta(&chars("weapon_x")), "item state, player stats, or target state may change");
    assert_eq!(function_outcomes(&chars("m_talk")), "monster behavior outcome");
    assert_eq!(function_side_effects(&chars("drawmap")), "presentation update only");
    assert_eq!(function_side_effects(&chars("other")), "may emit events/log lines");
    assert_eq!(define_trigger(&chars("MAXITEMS")), "catalog cardinality and capacity limits");
    assert_eq!(define_trigger(&chars("O_X")), "constant referenced by mechanics");
}
