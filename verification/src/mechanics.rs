//! The mechanics ledger model: entries, tiers, coverage kinds, parity rows,
//! and the token and name classifiers that sort mechanics into domains.
use vstd::prelude::*;

use crate::text::{chars_of, extend, extend_str, is_ascii, is_ascii_alphabetic, is_ascii_alphanumeric, is_ascii_graphic, spec_is_ascii, spec_is_ascii_alphabetic, spec_is_ascii_alphanumeric, spec_is_ascii_graphic, spec_starts_with, starts_with_str, string_of, spec_contains, contains_str, chars_eq_str, spec_is_one_of, is_one_of, contains_char};

verus! {

broadcast use crate::views::group_view_lemmas;

/// Root of the archived legacy C runtime.
pub const LEGACY_ROOT: &'static str = "archive/legacy-c-runtime/2026-02-06";

pub const TARGET_DIR: &'static str = "target";

pub const MAPPING_PATH: &'static str = "docs/migration/MECHANICS_PARITY_MAPPING.yaml";

#[derive(Debug, Clone, Copy, PartialEq, Eq, Structural, PartialOrd, Ord, Hash)]
pub enum MechanicTier {
    Main,
    Secondary,
    Tertiary,
    Rest,
}

#[derive(Debug, Clone, Copy, PartialEq, Eq, Structural, PartialOrd, Ord, Hash)]
pub enum CoverageKind {
    Runtime,
    Data,
    Presentation,
    PlatformOnly,
}

#[derive(Debug, Clone, Copy, PartialEq, Eq, Structural, PartialOrd, Ord, Hash)]
pub enum ParityStatus {
    Exact,
    Equivalent,
    Partial,
    Missing,
    Unknown,
    ExcludedNonGameplay,
}

/// One mechanic: a command token, a function, a constant or a state variant.
#[derive(Debug, Clone, PartialEq, Eq)]
pub struct MechanicEntry {
    pub id: String,
    pub name: String,
    pub tier: MechanicTier,
    pub domain: String,
    pub legacy_anchor: String,
    pub trigger: String,
    pub preconditions: String,
    pub state_delta: String,
    pub outcomes: String,
    pub side_effects: String,
    pub coverage_kind: CoverageKind,
}

/// The abstract value of a [`MechanicEntry`].
pub struct EntryView {
    pub id: Seq<char>,
    pub name: Seq<char>,
    pub tier: MechanicTier,
    pub domain: Seq<char>,
    pub legacy_anchor: Seq<char>,
    pub trigger: Seq<char>,
    pub preconditions: Seq<char>,
    pub state_delta: Seq<char>,
    pub outcomes: Seq<char>,
    pub side_effects: Seq<char>,
    pub coverage_kind: CoverageKind,
}

impl View for MechanicEntry {
    type V = EntryView;

    open spec fn view(&self) -> EntryView {
        EntryView {
            id: self.id@,
            name: self.name@,
            tier: self.tier,
            domain: self.domain@,
            legacy_anchor: self.legacy_anchor@,
            trigger: self.trigger@,
            preconditions: self.preconditions@,
            state_delta: self.state_delta@,
            outcomes: self.outcomes@,
            side_effects: self.side_effects@,
            coverage_kind: self.coverage_kind,
        }
    }
}

/// The views of a sequence of entries.
pub open spec fn entry_views(s: Seq<MechanicEntry>) -> Seq<EntryView> {
    s.map_values(|e: MechanicEntry| e@)
}

/// A ledger: the entries of one source with counts per tier and per domain.
/// The counts are kept in ascending key order, tiers in declaration order and
/// domains in text order, each key once and only with a non-zero count.
#[derive(Debug, Clone, PartialEq, Eq)]
pub struct MechanicsLedger {
    pub source: String,
    pub generated_at_utc: String,
    pub total: usize,
    pub by_tier: Vec<(MechanicTier, usize)>,
    pub by_domain: Vec<(String, usize)>,
    pub entries: Vec<MechanicEntry>,
}

#[derive(Debug, Clone, PartialEq, Eq)]
pub struct MechanicParityRow {
    pub mechanic_id: String,
    pub legacy_present: bool,
    pub rust_present: bool,
    pub parity_status: ParityStatus,
    pub evidence_static: String,
    pub evidence_dynamic: String,
    pub notes: String,
    pub tier: MechanicTier,
    pub domain: String,
}

/// Parity of every mechanic between the legacy and the new runtime; the
/// status counts are kept in status declaration order.
#[derive(Debug, Clone, PartialEq, Eq)]
pub struct MechanicsParityMatrix {
    pub generated_at_utc: String,
    pub total: usize,
    pub by_status: Vec<(ParityStatus, usize)>,
    pub unknown: usize,
    pub main_non_equivalent: usize,
    pub unresolved_gameplay: usize,
    pub gameplay_excluded: usize,
    pub pass: bool,
    pub rows: Vec<MechanicParityRow>,
}

#[derive(Debug, Clone, PartialEq, Eq)]
pub struct MissingDefect {
    pub id: String,
    pub severity: String,
    pub tier: MechanicTier,
    pub domain: String,
    pub mechanic_id: String,
    pub parity_status: ParityStatus,
    pub anchor: String,
    pub notes: String,
}

#[derive(Debug, Clone, PartialEq, Eq)]
pub struct MissingDefectBoard {
    pub generated_at_utc: String,
    pub total: usize,
    pub open: usize,
    pub defects: Vec<MissingDefect>,
}

#[derive(Debug, Clone, PartialEq, Eq)]
pub struct SmokeCheck {
    pub id: String,
    pub passed: bool,
    pub details: String,
}

#[derive(Debug, Clone, PartialEq, Eq)]
pub struct MechanicsSmokeReport {
    pub generated_at_utc: String,
    pub total: usize,
    pub passed: usize,
    pub failed: usize,
    pub pass: bool,
    pub checks: Vec<SmokeCheck>,
}

// ---------------------------------------------------------------------------
// Debug names
// ---------------------------------------------------------------------------

/// The `Debug` name of a tier.
pub open spec fn spec_tier_name(t: MechanicTier) -> Seq<char> {
    match t {
        MechanicTier::Main => "Main"@,
        MechanicTier::Secondary => "Secondary"@,
        MechanicTier::Tertiary => "Tertiary"@,
        MechanicTier::Rest => "Rest"@,
    }
}

pub fn tier_name(t: MechanicTier) -> (r: &'static str)
    ensures
        r@ == spec_tier_name(t),
{
    match t {
        MechanicTier::Main => "Main",
        MechanicTier::Secondary => "Secondary",
        MechanicTier::Tertiary => "Tertiary",
        MechanicTier::Rest => "Rest",
    }
}

/// The `Debug` name of a coverage kind.
pub open spec fn spec_coverage_name(k: CoverageKind) -> Seq<char> {
    match k {
        CoverageKind::Runtime => "Runtime"@,
        CoverageKind::Data => "Data"@,
        CoverageKind::Presentation => "Presentation"@,
        CoverageKind::PlatformOnly => "PlatformOnly"@,
    }
}

pub fn coverage_name(k: CoverageKind) -> (r: &'static str)
    ensures
        r@ == spec_coverage_name(k),
{
    match k {
        CoverageKind::Runtime => "Runtime",
        CoverageKind::Data => "Data",
        CoverageKind::Presentation => "Presentation",
        CoverageKind::PlatformOnly => "PlatformOnly",
    }
}

/// The `Debug` name of a parity status.
pub open spec fn spec_status_name(s: ParityStatus) -> Seq<char> {
    match s {
        ParityStatus::Exact => "Exact"@,
        ParityStatus::Equivalent => "Equivalent"@,
        ParityStatus::Partial => "Partial"@,
        ParityStatus::Missing => "Missing"@,
        ParityStatus::Unknown => "Unknown"@,
        ParityStatus::ExcludedNonGameplay => "ExcludedNonGameplay"@,
    }
}

pub fn status_name(s: ParityStatus) -> (r: &'static str)
    ensures
        r@ == spec_status_name(s),
{
    match s {
        ParityStatus::Exact => "Exact",
        ParityStatus::Equivalent => "Equivalent",
        ParityStatus::Partial => "Partial",
        ParityStatus::Missing => "Missing",
        ParityStatus::Unknown => "Unknown",
        ParityStatus::ExcludedNonGameplay => "ExcludedNonGameplay",
    }
}

// ---------------------------------------------------------------------------
// Token predicates and ids
// ---------------------------------------------------------------------------

/// A help-file command token: one ASCII graphic character other than `:`,
/// or `^` followed by one ASCII character (a two-byte token).
pub open spec fn spec_is_help_token(t: Seq<char>) -> bool {
    ||| (t.len() == 1 && spec_is_ascii_graphic(t[0]) && t[0] != ':')
    ||| (t.len() == 2 && t[0] == '^' && spec_is_ascii(t[1]))
}

pub fn help_token_chars(t: &Vec<char>) -> (r: bool)
    ensures
        r == spec_is_help_token(t@),
{
    (t.len() == 1 && is_ascii_graphic(t[0]) && t[0] != ':') || (t.len() == 2 && t[0] == '^'
        && is_ascii(t[1]))
}

pub fn is_help_token(token: &str) -> (r: bool)
    ensures
        r == spec_is_help_token(token@),
{
    let t = chars_of(token);
    help_token_chars(&t)
}

/// A C identifier: a letter or `_`, then letters, digits or `_`.
pub open spec fn spec_is_c_identifier(s: Seq<char>) -> bool {
    &&& s.len() > 0
    &&& (spec_is_ascii_alphabetic(s[0]) || s[0] == '_')
    &&& forall|i: int| 1 <= i < s.len() ==> spec_is_ascii_alphanumeric(#[trigger] s[i]) || s[i]
        == '_'
}

pub fn c_identifier_chars(s: &Vec<char>) -> (r: bool)
    ensures
        r == spec_is_c_identifier(s@),
{
    if s.len() == 0 {
        return false;
    }
    if !(is_ascii_alphabetic(s[0]) || s[0] == '_') {
        return false;
    }
    let mut i: usize = 1;
    while i < s.len()
        invariant
            1 <= i <= s.len(),
            forall|k: int| 1 <= k < i ==> spec_is_ascii_alphanumeric(#[trigger] s@[k]) || s@[k]
                == '_',
        decreases s.len() - i,
    {
        if !(is_ascii_alphanumeric(s[i]) || s[i] == '_') {
            return false;
        }
        i = i + 1;
    }
    true
}

pub fn is_c_identifier(name: &str) -> (r: bool)
    ensures
        r == spec_is_c_identifier(name@),
{
    let s = chars_of(name);
    c_identifier_chars(&s)
}

/// The id text that stands for one character of a command token.
pub open spec fn spec_id_char(c: char) -> Seq<char> {
    if c == '^' {
        "ctrl_"@
    } else if c == '<' {
        "lt_"@
    } else if c == '>' {
        "gt_"@
    } else if c == '/' {
        "slash"@
    } else if c == '?' {
        "help"@
    } else if c == '.' {
        "dot"@
    } else if c == ',' {
        "comma"@
    } else if c == '@' {
        "at"@
    } else if c == '#' {
        "hash"@
    } else if c == ' ' {
        "_"@
    } else {
        seq![c]
    }
}

/// A command token made safe for ids: each character is replaced by
/// `spec_id_char`.  None of the replacement texts holds a replaced
/// character, so this equals replacing `^ < > / ? . , @ # space` in turn.
pub open spec fn spec_normalize_id_token(s: Seq<char>) -> Seq<char>
    decreases s.len(),
{
    if s.len() == 0 {
        Seq::empty()
    } else {
        spec_normalize_id_token(s.drop_last()) + spec_id_char(s.last())
    }
}

fn push_id_char(out: &mut Vec<char>, c: char)
    ensures
        final(out)@ == old(out)@ + spec_id_char(c),
{
    if c == '^' {
        extend_str(out, "ctrl_");
    } else if c == '<' {
        extend_str(out, "lt_");
    } else if c == '>' {
        extend_str(out, "gt_");
    } else if c == '/' {
        extend_str(out, "slash");
    } else if c == '?' {
        extend_str(out, "help");
    } else if c == '.' {
        extend_str(out, "dot");
    } else if c == ',' {
        extend_str(out, "comma");
    } else if c == '@' {
        extend_str(out, "at");
    } else if c == '#' {
        extend_str(out, "hash");
    } else if c == ' ' {
        extend_str(out, "_");
    } else {
        let ghost before = out@;
        out.push(c);
        assert(out@ =~= before + seq![c]);
    }
}

pub fn normalize_id_chars(s: &Vec<char>) -> (r: Vec<char>)
    ensures
        r@ == spec_normalize_id_token(s@),
{
    let mut out: Vec<char> = Vec::new();
    let mut i: usize = 0;
    while i < s.len()
        invariant
            i <= s.len(),
            out@ == spec_normalize_id_token(s@.take(i as int)),
        decreases s.len() - i,
    {
        assert(s@.take(i + 1).drop_last() == s@.take(i as int));
        push_id_char(&mut out, s[i]);
        i = i + 1;
    }
    assert(s@.take(s.len() as int) == s@);
    out
}

pub fn normalize_id_token(token: &str) -> (r: String)
    ensures
        r@ == spec_normalize_id_token(token@),
{
    let s = chars_of(token);
    let out = normalize_id_chars(&s);
    string_of(&out)
}

/// The key under which legacy and new-runtime entries of the same mechanic
/// meet: command, function and define ids lose their source prefix.
pub open spec fn spec_canonical_key(id: Seq<char>) -> Seq<char> {
    if spec_starts_with(id, "legacy.command."@) {
        "command:"@ + id.skip("legacy.command."@.len() as int)
    } else if spec_starts_with(id, "rust.command."@) {
        "command:"@ + id.skip("rust.command."@.len() as int)
    } else if spec_starts_with(id, "legacy.function."@) {
        "function:"@ + id.skip("legacy.function."@.len() as int)
    } else if spec_starts_with(id, "legacy.definition."@) {
        "function:"@ + id.skip("legacy.definition."@.len() as int)
    } else if spec_starts_with(id, "rust.function."@) {
        "function:"@ + id.skip("rust.function."@.len() as int)
    } else if spec_starts_with(id, "legacy.define."@) {
        "define:"@ + id.skip("legacy.define."@.len() as int)
    } else {
        id
    }
}

/// `"new" + s[skip..]`.
fn replaced_prefix(s: &Vec<char>, skip: usize, new_prefix: &str) -> (r: Vec<char>)
    requires
        skip <= s.len(),
    ensures
        r@ == new_prefix@ + s@.skip(skip as int),
{
    let mut out = chars_of(new_prefix);
    let rest = crate::text::copy_range(s, skip, s.len());
    extend(&mut out, &rest);
    out
}

pub fn canonical_key_chars(id: &Vec<char>) -> (r: Vec<char>)
    ensures
        r@ == spec_canonical_key(id@),
{
    let p1 = chars_of("legacy.command.");
    if crate::text::starts_with(id, &p1) {
        return replaced_prefix(id, p1.len(), "command:");
    }
    let p2 = chars_of("rust.command.");
    if crate::text::starts_with(id, &p2) {
        return replaced_prefix(id, p2.len(), "command:");
    }
    let p3 = chars_of("legacy.function.");
    if crate::text::starts_with(id, &p3) {
        return replaced_prefix(id, p3.len(), "function:");
    }
    let p4 = chars_of("legacy.definition.");
    if crate::text::starts_with(id, &p4) {
        return replaced_prefix(id, p4.len(), "function:");
    }
    let p5 = chars_of("rust.function.");
    if crate::text::starts_with(id, &p5) {
        return replaced_prefix(id, p5.len(), "function:");
    }
    let p6 = chars_of("legacy.define.");
    if crate::text::starts_with(id, &p6) {
        return replaced_prefix(id, p6.len(), "define:");
    }
    crate::text::clone_chars(id)
}

pub fn canonical_key(entry_id: &str) -> (r: String)
    ensures
        r@ == spec_canonical_key(entry_id@),
{
    let id = chars_of(entry_id);
    let out = canonical_key_chars(&id);
    string_of(&out)
}

// ---------------------------------------------------------------------------
// Classifiers
// ---------------------------------------------------------------------------

/// Tier, domain and coverage of a command token.
pub open spec fn spec_classify_command_token(t: Seq<char>) -> (MechanicTier, Seq<char>, CoverageKind) {
    if spec_is_one_of(t, "mqrzaAe"@) {
        (MechanicTier::Main, "magic_and_items"@, CoverageKind::Runtime)
    } else if spec_is_one_of(t, "hjklyubn.,<>v"@) {
        (MechanicTier::Main, "movement_and_traversal"@, CoverageKind::Runtime)
    } else if spec_is_one_of(t, "ftpGDT"@) {
        (MechanicTier::Main, "combat_and_interaction"@, CoverageKind::Runtime)
    } else if spec_is_one_of(t, "iIdgC"@) {
        (MechanicTier::Main, "inventory_and_equipment"@, CoverageKind::Runtime)
    } else if spec_is_one_of(t, "QSR"@) {
        (MechanicTier::Main, "session_and_victory"@, CoverageKind::Runtime)
    } else if spec_is_ctrl_of(t, "gxwkf"@) {
        (MechanicTier::Tertiary, "wizard_and_debug"@, CoverageKind::Runtime)
    } else if spec_is_one_of(t, "?/VPO"@) || spec_is_ctrl_of(t, "polr"@) {
        (MechanicTier::Tertiary, "ui_and_help"@, CoverageKind::Presentation)
    } else {
        (MechanicTier::Rest, "misc_commands"@, CoverageKind::Runtime)
    }
}

/// `^` followed by one character of `set`.
pub open spec fn spec_is_ctrl_of(t: Seq<char>, set: Seq<char>) -> bool {
    t.len() == 2 && t[0] == '^' && set.contains(t[1])
}

fn is_ctrl_of(t: &Vec<char>, set: &str) -> (r: bool)
    ensures
        r == spec_is_ctrl_of(t@, set@),
{
    if t.len() != 2 || t[0] != '^' {
        return false;
    }
    let sv = chars_of(set);
    contains_char(&sv, t[1])
}

pub fn classify_command_token(t: &Vec<char>) -> (r: (MechanicTier, &'static str, CoverageKind))
    ensures
        (r.0, r.1@, r.2) == spec_classify_command_token(t@),
{
    if is_one_of(t, "mqrzaAe") {
        (MechanicTier::Main, "magic_and_items", CoverageKind::Runtime)
    } else if is_one_of(t, "hjklyubn.,<>v") {
        (MechanicTier::Main, "movement_and_traversal", CoverageKind::Runtime)
    } else if is_one_of(t, "ftpGDT") {
        (MechanicTier::Main, "combat_and_interaction", CoverageKind::Runtime)
    } else if is_one_of(t, "iIdgC") {
        (MechanicTier::Main, "inventory_and_equipment", CoverageKind::Runtime)
    } else if is_one_of(t, "QSR") {
        (MechanicTier::Main, "session_and_victory", CoverageKind::Runtime)
    } else if is_ctrl_of(t, "gxwkf") {
        (MechanicTier::Tertiary, "wizard_and_debug", CoverageKind::Runtime)
    } else if is_one_of(t, "?/VPO") || is_ctrl_of(t, "polr") {
        (MechanicTier::Tertiary, "ui_and_help", CoverageKind::Presentation)
    } else {
        (MechanicTier::Rest, "misc_commands", CoverageKind::Runtime)
    }
}

/// Tier, domain and coverage of a C or Rust function name.
pub open spec fn spec_classify_function_name(n: Seq<char>) -> (MechanicTier, Seq<char>, CoverageKind) {
    if spec_starts_with(n, "l_"@) {
        (MechanicTier::Secondary, "locations_and_sites"@, CoverageKind::Runtime)
    } else if spec_starts_with(n, "s_"@) || n == "cast_spell"@ || n == "getspell"@ || n
        == "spellparse"@ {
        (MechanicTier::Main, "magic_and_spells"@, CoverageKind::Runtime)
    } else if spec_starts_with(n, "i_"@) || spec_starts_with(n, "weapon_"@) || spec_starts_with(
        n,
        "item_"@,
    ) {
        (MechanicTier::Main, "items_and_equipment"@, CoverageKind::Runtime)
    } else if spec_starts_with(n, "m_"@) || spec_starts_with(n, "monster_"@) {
        (MechanicTier::Secondary, "monster_ai_and_behaviors"@, CoverageKind::Runtime)
    } else if spec_contains(n, "inventory"@) || spec_contains(n, "getitem"@) || spec_contains(
        n,
        "pack"@,
    ) {
        (MechanicTier::Main, "inventory_and_equipment"@, CoverageKind::Runtime)
    } else if spec_contains(n, "guild"@) || spec_contains(n, "castle"@) || spec_contains(
        n,
        "arena"@,
    ) || spec_contains(n, "thieves"@) || spec_contains(n, "order"@) || spec_contains(
        n,
        "college"@,
    ) || spec_contains(n, "sorcer"@) || spec_contains(n, "temple"@) || spec_contains(
        n,
        "prayer"@,
    ) {
        (MechanicTier::Secondary, "quests_and_progression"@, CoverageKind::Runtime)
    } else if spec_contains(n, "save"@) || spec_contains(n, "restore"@) {
        (MechanicTier::Main, "save_and_session"@, CoverageKind::Data)
    } else if spec_contains(n, "display"@) || spec_contains(n, "draw"@) || spec_contains(
        n,
        "print"@,
    ) || spec_contains(n, "menu"@) || spec_contains(n, "cursor"@) {
        (MechanicTier::Tertiary, "ui_and_logging"@, CoverageKind::Presentation)
    } else if spec_contains(n, "init"@) || spec_contains(n, "load"@) || spec_contains(n, "map"@) {
        (MechanicTier::Secondary, "world_and_generation"@, CoverageKind::Runtime)
    } else {
        (MechanicTier::Rest, "misc_runtime"@, CoverageKind::Runtime)
    }
}

pub fn classify_function_name(n: &Vec<char>) -> (r: (MechanicTier, &'static str, CoverageKind))
    ensures
        (r.0, r.1@, r.2) == spec_classify_function_name(n@),
{
    if starts_with_str(n, "l_") {
        (MechanicTier::Secondary, "locations_and_sites", CoverageKind::Runtime)
    } else if starts_with_str(n, "s_") || chars_eq_str(n, "cast_spell") || chars_eq_str(
        n,
        "getspell",
    ) || chars_eq_str(n, "spellparse") {
        (MechanicTier::Main, "magic_and_spells", CoverageKind::Runtime)
    } else if starts_with_str(n, "i_") || starts_with_str(n, "weapon_") || starts_with_str(
        n,
        "item_",
    ) {
        (MechanicTier::Main, "items_and_equipment", CoverageKind::Runtime)
    } else if starts_with_str(n, "m_") || starts_with_str(n, "monster_") {
        (MechanicTier::Secondary, "monster_ai_and_behaviors", CoverageKind::Runtime)
    } else if contains_str(n, "inventory") || contains_str(n, "getitem") || contains_str(
        n,
        "pack",
    ) {
        (MechanicTier::Main, "inventory_and_equipment", CoverageKind::Runtime)
    } else if contains_str(n, "guild") || contains_str(n, "castle") || contains_str(n, "arena")
        || contains_str(n, "thieves") || contains_str(n, "order") || contains_str(n, "college")
        || contains_str(n, "sorcer") || contains_str(n, "temple") || contains_str(n, "prayer") {
        (MechanicTier::Secondary, "quests_and_progression", CoverageKind::Runtime)
    } else if contains_str(n, "save") || contains_str(n, "restore") {
        (MechanicTier::Main, "save_and_session", CoverageKind::Data)
    } else if contains_str(n, "display") || contains_str(n, "draw") || contains_str(n, "print")
        || contains_str(n, "menu") || contains_str(n, "cursor") {
        (MechanicTier::Tertiary, "ui_and_logging", CoverageKind::Presentation)
    } else if contains_str(n, "init") || contains_str(n, "load") || contains_str(n, "map") {
        (MechanicTier::Secondary, "world_and_generation", CoverageKind::Runtime)
    } else {
        (MechanicTier::Rest, "misc_runtime", CoverageKind::Runtime)
    }
}

/// Tier, domain and coverage of a `#define` name.
pub open spec fn spec_classify_define_name(n: Seq<char>) -> (MechanicTier, Seq<char>, CoverageKind) {
    if spec_starts_with(n, "S_"@) || n == "NUMSPELLS"@ {
        (MechanicTier::Main, "magic_and_spells"@, CoverageKind::Data)
    } else if spec_starts_with(n, "L_"@) || n == "NUMCITYSITES"@ || n == "NUMTRAPS"@ {
        (MechanicTier::Secondary, "locations_and_sites"@, CoverageKind::Data)
    } else if spec_starts_with(n, "M_"@) || n == "NUMMONSTERS"@ {
        (MechanicTier::Secondary, "monster_ai_and_behaviors"@, CoverageKind::Data)
    } else if spec_starts_with(n, "NUM"@) || spec_starts_with(n, "MAX"@) || spec_starts_with(
        n,
        "O_"@,
    ) {
        (MechanicTier::Main, "core_system_contract"@, CoverageKind::Data)
    } else {
        (MechanicTier::Rest, "misc_constants"@, CoverageKind::Data)
    }
}

pub fn classify_define_name(n: &Vec<char>) -> (r: (MechanicTier, &'static str, CoverageKind))
    ensures
        (r.0, r.1@, r.2) == spec_classify_define_name(n@),
{
    if starts_with_str(n, "S_") || chars_eq_str(n, "NUMSPELLS") {
        (MechanicTier::Main, "magic_and_spells", CoverageKind::Data)
    } else if starts_with_str(n, "L_") || chars_eq_str(n, "NUMCITYSITES") || chars_eq_str(
        n,
        "NUMTRAPS",
    ) {
        (MechanicTier::Secondary, "locations_and_sites", CoverageKind::Data)
    } else if starts_with_str(n, "M_") || chars_eq_str(n, "NUMMONSTERS") {
        (MechanicTier::Secondary, "monster_ai_and_behaviors", CoverageKind::Data)
    } else if starts_with_str(n, "NUM") || starts_with_str(n, "MAX") || starts_with_str(n, "O_") {
        (MechanicTier::Main, "core_system_contract", CoverageKind::Data)
    } else {
        (MechanicTier::Rest, "misc_constants", CoverageKind::Data)
    }
}

pub open spec fn spec_function_trigger(n: Seq<char>) -> Seq<char> {
    if spec_starts_with(n, "l_"@) {
        "enter location site or interact with local feature"@
    } else if spec_starts_with(n, "i_"@) {
        "item use/equip/activation pathway"@
    } else if spec_starts_with(n, "s_"@) {
        "spell cast dispatch and effect resolution"@
    } else if spec_starts_with(n, "m_"@) || spec_starts_with(n, "monster_"@) {
        "monster turn, strike, movement or dialogue"@
    } else if spec_contains(n, "save"@) || spec_contains(n, "restore"@) {
        "save/load lifecycle operation"@
    } else {
        "runtime subsystem call path"@
    }
}

pub fn function_trigger(n: &Vec<char>) -> (r: &'static str)
    ensures
        r@ == spec_function_trigger(n@),
{
    if starts_with_str(n, "l_") {
        "enter location site or interact with local feature"
    } else if starts_with_str(n, "i_") {
        "item use/equip/activation pathway"
    } else if starts_with_str(n, "s_") {
        "spell cast dispatch and effect resolution"
    } else if starts_with_str(n, "m_") || starts_with_str(n, "monster_") {
        "monster turn, strike, movement or dialogue"
    } else if contains_str(n, "save") || contains_str(n, "restore") {
        "save/load lifecycle operation"
    } else {
        "runtime subsystem call path"
    }
}

pub open spec fn spec_function_preconditions(n: Seq<char>) -> Seq<char> {
    if spec_starts_with(n, "l_"@) {
        "player is on/adjacent to matching site tile"@
    } else if spec_starts_with(n, "i_"@) {
        "selected item exists and command path allows use"@
    } else if spec_starts_with(n, "s_"@) {
        "spell known, cast allowed, mana/conditions satisfied"@
    } else if spec_contains(n, "inventory"@) {
        "inventory control loop active"@
    } else {
        "subsystem-specific"@
    }
}

pub fn function_preconditions(n: &Vec<char>) -> (r: &'static str)
    ensures
        r@ == spec_function_preconditions(n@),
{
    if starts_with_str(n, "l_") {
        "player is on/adjacent to matching site tile"
    } else if starts_with_str(n, "i_") {
        "selected item exists and command path allows use"
    } else if starts_with_str(n, "s_") {
        "spell known, cast allowed, mana/conditions satisfied"
    } else if contains_str(n, "inventory") {
        "inventory control loop active"
    } else {
        "subsystem-specific"
    }
}

pub open spec fn spec_function_state_delta(n: Seq<char>) -> Seq<char> {
    if spec_starts_with(n, "l_"@) {
        "location, progression, economy, flags, or map state may change"@
    } else if spec_starts_with(n, "i_"@) || spec_starts_with(n, "weapon_"@) {
        "item state, player stats, or target state may change"@
    } else if spec_starts_with(n, "s_"@) {
        "mana, statuses, targets, map and effects may change"@
    } else if spec_starts_with(n, "m_"@) || spec_starts_with(n, "monster_"@) {
        "monster and player combat/position state may change"@
    } else if spec_contains(n, "save"@) || spec_contains(n, "restore"@) {
        "persistent snapshot state changed or loaded"@
    } else {
        "runtime state may change"@
    }
}

pub fn function_state_delta(n: &Vec<char>) -> (r: &'static str)
    ensures
        r@ == spec_function_state_delta(n@),
{
    if starts_with_str(n, "l_") {
        "location, progression, economy, flags, or map state may change"
    } else if starts_with_str(n, "i_") || starts_with_str(n, "weapon_") {
        "item state, player stats, or target state may change"
    } else if starts_with_str(n, "s_") {
        "mana, statuses, targets, map and effects may change"
    } else if starts_with_str(n, "m_") || starts_with_str(n, "monster_") {
        "monster and player combat/position state may change"
    } else if contains_str(n, "save") || contains_str(n, "restore") {
        "persistent snapshot state changed or loaded"
    } else {
        "runtime state may change"
    }
}

pub open spec fn spec_function_outcomes(n: Seq<char>) -> Seq<char> {
    if spec_starts_with(n, "l_"@) {
        "site-specific branch outcomes"@
    } else if spec_starts_with(n, "i_"@) {
        "item effect outcome"@
    } else if spec_starts_with(n, "s_"@) {
        "spell effect outcome"@
    } else if spec_starts_with(n, "m_"@) || spec_starts_with(n, "monster_"@) {
        "monster behavior outcome"@
    } else if spec_contains(n, "save"@) || spec_contains(n, "restore"@) {
        "session continuity outcome"@
    } else {
        "subsystem outcome"@
    }
}

pub fn function_outcomes(n: &Vec<char>) -> (r: &'static str)
    ensures
        r@ == spec_function_outcomes(n@),
{
    if starts_with_str(n, "l_") {
        "site-specific branch outcomes"
    } else if starts_with_str(n, "i_") {
        "item effect outcome"
    } else if starts_with_str(n, "s_") {
        "spell effect outcome"
    } else if starts_with_str(n, "m_") || starts_with_str(n, "monster_") {
        "monster behavior outcome"
    } else if contains_str(n, "save") || contains_str(n, "restore") {
        "session continuity outcome"
    } else {
        "subsystem outcome"
    }
}

pub open spec fn spec_function_side_effects(n: Seq<char>) -> Seq<char> {
    if spec_starts_with(n, "l_"@) || spec_starts_with(n, "i_"@) || spec_starts_with(n, "s_"@) {
        "log/messages/events and resource deltas"@
    } else if spec_starts_with(n, "m_"@) || spec_starts_with(n, "monster_"@) {
        "combat events and AI state"@
    } else if spec_contains(n, "draw"@) || spec_contains(n, "display"@) {
        "presentation update only"@
    } else {
        "may emit events/log lines"@
    }
}

pub fn function_side_effects(n: &Vec<char>) -> (r: &'static str)
    ensures
        r@ == spec_function_side_effects(n@),
{
    if starts_with_str(n, "l_") || starts_with_str(n, "i_") || starts_with_str(n, "s_") {
        "log/messages/events and resource deltas"
    } else if starts_with_str(n, "m_") || starts_with_str(n, "monster_") {
        "combat events and AI state"
    } else if contains_str(n, "draw") || contains_str(n, "display") {
        "presentation update only"
    } else {
        "may emit events/log lines"
    }
}

pub open spec fn spec_define_trigger(n: Seq<char>) -> Seq<char> {
    if spec_starts_with(n, "S_"@) {
        "spell indexing and dispatch contracts"@
    } else if spec_starts_with(n, "L_"@) {
        "site/location function routing"@
    } else if spec_starts_with(n, "M_"@) {
        "monster behavior and attack routing"@
    } else if spec_starts_with(n, "NUM"@) || spec_starts_with(n, "MAX"@) {
        "catalog cardinality and capacity limits"@
    } else {
        "constant referenced by mechanics"@
    }
}

pub fn define_trigger(n: &Vec<char>) -> (r: &'static str)
    ensures
        r@ == spec_define_trigger(n@),
{
    if starts_with_str(n, "S_") {
        "spell indexing and dispatch contracts"
    } else if starts_with_str(n, "L_") {
        "site/location function routing"
    } else if starts_with_str(n, "M_") {
        "monster behavior and attack routing"
    } else if starts_with_str(n, "NUM") || starts_with_str(n, "MAX") {
        "catalog cardinality and capacity limits"
    } else {
        "constant referenced by mechanics"
    }
}

// ---------------------------------------------------------------------------
// Paths
// ---------------------------------------------------------------------------

/// `PathBuf::push` on Unix: an absolute part replaces the path; otherwise
/// a `/` is added when the path does not already end in one.
pub open spec fn spec_path_push(path: Seq<char>, part: Seq<char>) -> Seq<char> {
    if spec_starts_with(part, "/"@) {
        part
    } else if path.len() > 0 && path.last() != '/' {
        path + "/"@ + part
    } else {
        path + part
    }
}

/// `root` with each of `parts` pushed in turn.
pub open spec fn spec_path_join(root: Seq<char>, parts: Seq<Seq<char>>) -> Seq<char>
    decreases parts.len(),
{
    if parts.len() == 0 {
        root
    } else {
        spec_path_push(spec_path_join(root, parts.drop_last()), parts.last())
    }
}

/// The views of a slice of string slices.
pub open spec fn str_views(parts: Seq<&str>) -> Seq<Seq<char>> {
    parts.map_values(|p: &str| p@)
}

fn path_push(path: &mut Vec<char>, part: &str)
    ensures
        final(path)@ == spec_path_push(old(path)@, part@),
{
    let pv = chars_of(part);
    if starts_with_str(&pv, "/") {
        *path = pv;
    } else if path.len() > 0 && path[path.len() - 1] != '/' {
        extend_str(path, "/");
        extend(path, &pv);
    } else {
        extend(path, &pv);
    }
}

/// A path below the legacy runtime root, as text.
pub fn legacy_path(parts: &[&str]) -> (r: String)
    ensures
        r@ == spec_path_join(LEGACY_ROOT@, str_views(parts@)),
{
    let mut path = chars_of(LEGACY_ROOT);
    let mut i: usize = 0;
    while i < parts.len()
        invariant
            i <= parts.len(),
            path@ == spec_path_join(LEGACY_ROOT@, str_views(parts@).take(i as int)),
        decreases parts.len() - i,
    {
        assert(str_views(parts@).take(i + 1).drop_last() == str_views(parts@).take(i as int));
        path_push(&mut path, parts[i]);
        i = i + 1;
    }
    assert(str_views(parts@).take(parts.len() as int) == str_views(parts@));
    string_of(&path)
}

} // verus!
