use omega_tools::mechanics::{CoverageKind, MechanicTier};
use omega_tools::scan::{
    brace_delta, parse_c_prototypes, parse_defines, parse_help_commands, parse_rust_command_tokens,
    parse_rust_symbols, rust_enum_variant, rust_fn_name,
};

fn lines(v: &[&str]) -> Vec<String> {
    v.iter().map(|s| s.to_string()).collect()
}

fn chars(s: &str) -> Vec<char> {
    s.chars().collect()
}

#[test]
fn help_commands_keep_token_lines() {
    let ls = lines(&[
        "",
        "key: description",
        "q: quaff a potion",
        "^x : wizard",
        "word: something",
        "_hidden: x",
        "g get stuff: pick up",
    ]);
    let out = parse_help_commands(&ls, "help.txt", "dungeon");
    assert_eq!(out.len(), 3);
    assert_eq!(out[0].id, "legacy.command.q");
    assert_eq!(out[0].name, "q - quaff a potion");
    assert_eq!(out[0].tier, MechanicTier::Main);
    assert_eq!(out[0].domain, "magic_and_items");
    assert_eq!(out[0].legacy_anchor, "help.txt:3");
    assert_eq!(out[0].trigger, "input token `q` in dungeon");
    assert_eq!(out[0].preconditions, "context=dungeon");
    assert_eq!(out[0].state_delta, "command-specific");
    assert_eq!(out[0].outcomes, "quaff a potion");
    assert_eq!(out[0].side_effects, "time/action progression by command");
    assert_eq!(out[0].coverage_kind, CoverageKind::Runtime);
    assert_eq!(out[1].id, "legacy.command.ctrl_x");
    assert_eq!(out[1].name, "^x - wizard");
    assert_eq!(out[1].tier, MechanicTier::Tertiary);
    assert_eq!(out[1].legacy_anchor, "help.txt:4");
    assert_eq!(out[2].id, "legacy.command.g");
    assert_eq!(out[2].name, "g - pick up");
    assert_eq!(out[2].domain, "inventory_and_equipment");
    assert_eq!(out[2].legacy_anchor, "help.txt:7");
}

#[test]
fn help_commands_of_empty_text() {
    assert!(parse_help_commands(&Vec::new(), "h", "c").is_empty());
}

#[test]
fn c_prototypes_keep_declared_functions() {
    let ls = lines(&[
        "/* comment */",
        "void l_arena(void);",
        "int cast_spell(int x);",
        "#define X 1",
        "static int foo",
        "bad-name(x);",
        "int (*fp)(void);",
    ]);
    let out = parse_c_prototypes(&ls, "extern.h");
    let ids: Vec<&str> = out.iter().map(|e| e.id.as_str()).collect();
    assert_eq!(ids, vec!["legacy.function.l_arena", "legacy.function.cast_spell", "legacy.function.int"]);
    assert_eq!(out[0].legacy_anchor, "extern.h:2");
    assert_eq!(out[0].tier, MechanicTier::Secondary);
    assert_eq!(out[0].trigger, "enter location site or interact with local feature");
    assert_eq!(out[1].domain, "magic_and_spells");
    assert_eq!(out[2].legacy_anchor, "extern.h:7");
    assert_eq!(out[2].domain, "misc_runtime");
}

#[test]
fn defines_keep_prefixed_constants() {
    let ls = lines(&[
        "#define S_MISSILE 12",
        "#define NUMSPELLS 42 /* count */",
        "#define foo 1",
        "#define L_ARENA",
        "#define M_X(a) a",
        "  #define MAXITEMS  100  ",
    ]);
    let out = parse_defines(&ls, "defs.h");
    let names: Vec<&str> = out.iter().map(|e| e.name.as_str()).collect();
    assert_eq!(names, vec!["S_MISSILE=12", "NUMSPELLS=42 /* count */", "L_ARENA=", "MAXITEMS=100"]);
    assert_eq!(out[0].id, "legacy.define.S_MISSILE");
    assert_eq!(out[0].trigger, "spell indexing and dispatch contracts");
    assert_eq!(out[0].coverage_kind, CoverageKind::Data);
    assert_eq!(out[1].domain, "magic_and_spells");
    assert_eq!(out[2].legacy_anchor, "defs.h:4");
    assert_eq!(out[3].domain, "core_system_contract");
    assert_eq!(out[3].legacy_anchor, "defs.h:6");
    assert_eq!(out[3].preconditions, "constant lookup");
}

#[test]
fn rust_symbols_keep_functions_and_variants() {
    let ls = lines(&[
        "pub fn step(state: &mut GameState) {",
        "fn helper()",
        "    Idle,",
        "pub enum Mode {",
        "    Running(u8),",
        "    lower,",
    ]);
    let out = parse_rust_symbols(&ls, "lib.rs", "core");
    let ids: Vec<&str> = out.iter().map(|e| e.id.as_str()).collect();
    assert_eq!(
        ids,
        vec!["rust.function.step", "rust.function.helper", "rust.enum.variant.Idle", "rust.enum.variant.Running"]
    );
    assert_eq!(out[0].legacy_anchor, "lib.rs:1 (core)");
    assert_eq!(out[2].tier, MechanicTier::Tertiary);
    assert_eq!(out[2].domain, "interaction_state");
    assert_eq!(out[3].legacy_anchor, "lib.rs:5 (core)");
}

#[test]
fn rust_line_helpers() {
    assert_eq!(rust_fn_name(&chars("fn foo(x)")), Some(chars("foo")));
    assert_eq!(rust_fn_name(&chars("pub fn bar ()")), Some(chars("bar")));
    assert_eq!(rust_fn_name(&chars("let x = 1;")), None);
    assert_eq!(rust_enum_variant(&chars("  Waiting { turns: u8 },")), None);
    assert_eq!(rust_enum_variant(&chars("Waiting(u8),")), Some(chars("Waiting")));
    assert_eq!(rust_enum_variant(&chars("enum X,")), None);
    assert_eq!(brace_delta(&chars("{{}")), 1);
    assert_eq!(brace_delta(&chars("}}")), -2);
    assert_eq!(brace_delta(&chars("")), 0);
}

#[test]
fn rust_command_tokens_come_from_the_dispatch_match() {
    let ls = lines(&[
        "fn x() {",
        "    let (note, fully_modeled) = match trimmed {",
        "        \"q\" | \"Q\" => {",
        "            (\"x\", true)",
        "        }",
        "        \"<enter>\" => (\"e\", true),",
        "        _ => (\"u\", false),",
        "    };",
        "    \"z\" => 1,",
    ]);
    let out = parse_rust_command_tokens(&ls, "core.rs");
    let ids: Vec<&str> = out.iter().map(|e| e.id.as_str()).collect();
    assert_eq!(ids, vec!["rust.command.q", "rust.command.Q", "rust.command.lt_entergt_"]);
    assert_eq!(out[0].legacy_anchor, "core.rs:3");
    assert_eq!(out[1].domain, "session_and_victory");
    assert_eq!(out[2].name, "legacy token <enter>");
    assert_eq!(out[2].trigger, "Command::Legacy token `<enter>`");
    assert_eq!(out[2].legacy_anchor, "core.rs:6");
}
