//! The parity recovery refresh: notes of spell casts read apart, the spell
//! parity checks, placeholder names in the catalogs, and the verdicts and
//! baseline of the recovery artifacts.
use vstd::prelude::*;

use crate::clock::{now_utc_unix, spec_unix_stamp};
use crate::fields::{bool_field, spec_bool_field, spec_field, FieldValue, FieldView, JsonFields};
use crate::refresh::{is_matrix_of, spec_status_text, true_matrix, MatrixCheck, TrueMatrix};
use crate::tally::{lemma_sorted_set_size, sorted_key_set};
use crate::reports::{push_bool, spec_bool_text};
use crate::text::{
    chars_of, copy_range, extend_str, index_of_char, lemma_index_of_char, lowercase, push_dec,
    push_int, spec_dec, spec_index_of_char, spec_int, spec_lowercase, spec_starts_with,
    starts_with_str, string_of,
};

verus! {

broadcast use crate::views::group_view_lemmas;

/// The text between the first two occurrences of `marker`.
pub open spec fn spec_capture_between(raw: Seq<char>, marker: char) -> Option<Seq<char>> {
    let first = spec_index_of_char(raw, marker);
    if first >= raw.len() {
        None
    } else {
        let rest = raw.skip(first + 1int);
        let second = spec_index_of_char(rest, marker);
        if second >= rest.len() {
            None
        } else {
            Some(rest.take(second as int))
        }
    }
}

pub open spec fn opt_text_view(o: Option<String>) -> Option<Seq<char>> {
    match o {
        Some(s) => Some(s@),
        None => None,
    }
}

pub fn capture_between(raw: &str, marker: char) -> (r: Option<String>)
    ensures
        opt_text_view(r) == spec_capture_between(raw@, marker),
{
    let s = chars_of(raw);
    let first = index_of_char(&s, marker);
    proof {
        lemma_index_of_char(s@, marker);
    }
    if first >= s.len() {
        return None;
    }
    let rest = copy_range(&s, first + 1, s.len());
    assert(rest@ == s@.skip(first + 1));
    let second = index_of_char(&rest, marker);
    proof {
        lemma_index_of_char(rest@, marker);
    }
    if second >= rest.len() {
        return None;
    }
    Some(string_of(&copy_range(&rest, 0, second)))
}

/// Index of the last `c` in `s`, as `str::rfind`.
pub open spec fn spec_rfind_char(s: Seq<char>, c: char) -> Option<nat>
    decreases s.len(),
{
    if s.len() == 0 {
        None
    } else if s.last() == c {
        Some((s.len() - 1) as nat)
    } else {
        spec_rfind_char(s.drop_last(), c)
    }
}

proof fn lemma_rfind_bound(s: Seq<char>, c: char)
    ensures
        spec_rfind_char(s, c) matches Some(i) ==> i < s.len(),
    decreases s.len(),
{
    if s.len() > 0 && s.last() != c {
        lemma_rfind_bound(s.drop_last(), c);
    }
}

fn rfind_char(s: &Vec<char>, c: char) -> (r: Option<usize>)
    ensures
        match r {
            Some(i) => spec_rfind_char(s@, c) == Some(i as nat),
            None => spec_rfind_char(s@, c) is None,
        },
{
    let mut n: usize = s.len();
    assert(s@.take(n as int) =~= s@);
    while n > 0
        invariant
            n <= s.len(),
            spec_rfind_char(s@, c) == spec_rfind_char(s@.take(n as int), c),
        decreases n,
    {
        assert(s@.take(n as int).last() == s@[n - 1]);
        assert(s@.take(n as int).drop_last() =~= s@.take(n - 1));
        if s[n - 1] == c {
            return Some(n - 1);
        }
        n = n - 1;
    }
    None
}

/// The note between the last `(` and the last `)`, when it is not empty
/// and the parenthesis comes first.
pub open spec fn spec_capture_effect_note(raw: Seq<char>) -> Option<Seq<char>> {
    match (spec_rfind_char(raw, '('), spec_rfind_char(raw, ')')) {
        (Some(start), Some(end)) => if end > start + 1 {
            Some(raw.subrange(start + 1int, end as int))
        } else {
            None
        },
        _ => None,
    }
}

pub fn capture_effect_note(raw: &str) -> (r: Option<String>)
    ensures
        opt_text_view(r) == spec_capture_effect_note(raw@),
{
    let s = chars_of(raw);
    proof {
        lemma_rfind_bound(s@, '(');
        lemma_rfind_bound(s@, ')');
    }
    let start = match rfind_char(&s, '(') {
        Some(i) => i,
        None => {
            return None;
        },
    };
    let end = match rfind_char(&s, ')') {
        Some(i) => i,
        None => {
            return None;
        },
    };
    if end > start + 1 {
        Some(string_of(&copy_range(&s, start + 1, end)))
    } else {
        None
    }
}

// ---------------------------------------------------------------------------
// Spell parity
// ---------------------------------------------------------------------------

/// The mana cost of each legacy spell, in spell order.
pub open spec fn spec_legacy_spell_costs() -> Seq<i32> {
    seq![
        3, 3, 10, 20, 20, 25, 15, 30, 40, 30, 15, 40, 10, 20, 15, 50, 30, 30, 20, 20, 20, 90, 10, 20,
        10, 50, 15, 20, 75, 20, 50, 15, 50, 15, 20, 75, 10, 40, 25, 10, 100, 25,
    ]
}

pub open spec fn spec_cost_sum(v: Seq<i32>) -> int
    decreases v.len(),
{
    if v.len() == 0 {
        0
    } else {
        spec_cost_sum(v.drop_last()) + v.last()
    }
}

/// The mana cost of each legacy spell.
pub fn legacy_spell_costs() -> (r: Vec<i32>)
    ensures
        r@ == spec_legacy_spell_costs(),
{
    let r = vec![
        3, 3, 10, 20, 20, 25, 15, 30, 40, 30, 15, 40, 10, 20, 15, 50, 30, 30, 20, 20, 20, 90, 10, 20,
        10, 50, 15, 20, 75, 20, 50, 15, 50, 15, 20, 75, 10, 40, 25, 10, 100, 25,
    ];
    assert(r@ =~= spec_legacy_spell_costs());
    r
}

/// The mana that casting every legacy spell once spends.
pub fn expected_mana_spend() -> (r: i32)
    ensures
        r == spec_cost_sum(spec_legacy_spell_costs()),
{
    let costs = legacy_spell_costs();
    let mut total: i32 = 0;
    let mut i: usize = 0;
    while i < costs.len()
        invariant
            i <= costs.len(),
            costs@ == spec_legacy_spell_costs(),
            total == spec_cost_sum(costs@.take(i as int)),
            0 <= total <= 100 * i,
            forall|k: int| 0 <= k < costs.len() ==> 0 <= #[trigger] costs@[k] <= 100,
        decreases costs.len() - i,
    {
        assert(costs@.take(i + 1).drop_last() =~= costs@.take(i as int));
        total = total + costs[i];
        i = i + 1;
    }
    assert(costs@.take(costs.len() as int) =~= costs@);
    total
}

/// What a cycle through every spell observed.
#[derive(Debug, Clone, Copy)]
pub struct SpellCycle {
    /// Spells in the legacy catalog.
    pub catalog_spells: usize,
    /// Whether no catalog spell name is a placeholder.
    pub no_placeholders: bool,
    /// Distinct spell names the casts reported.
    pub unique_names: usize,
    /// Whether every cast was fully modelled.
    pub all_modeled: bool,
    /// Mana spent over the cycle.
    pub observed_spend: i32,
    /// Distinct effect notes the casts reported.
    pub effect_notes: usize,
}

pub struct CheckView {
    pub id: Seq<char>,
    pub passed: bool,
    pub details: Seq<char>,
}

pub open spec fn check_views(v: Seq<MatrixCheck>) -> Seq<CheckView> {
    Seq::new(v.len(), |i: int| CheckView { id: v[i].id@, passed: v[i].passed, details: v[i].details@ })
}

/// The spell parity checks: 42 catalog spells, no placeholder names, every
/// one of the 42 names cast and fully modelled, the legacy mana profile
/// spent, and at least 24 distinct effect notes.
pub open spec fn spec_spell_checks(c: SpellCycle, expected: int) -> Seq<CheckView> {
    seq![
        CheckView {
            id: "spell_catalog_denominator_42"@,
            passed: c.catalog_spells == 42,
            details: "legacy_catalog_spells="@ + spec_dec(c.catalog_spells as nat),
        },
        CheckView {
            id: "spell_catalog_no_placeholders"@,
            passed: c.no_placeholders,
            details: "catalog spell names do not contain placeholder signatures"@,
        },
        CheckView {
            id: "spell_dispatch_cycles_all_42_names"@,
            passed: c.unique_names == 42 && c.all_modeled,
            details: "unique_names="@ + spec_dec(c.unique_names as nat) + " modeled="@ + spec_bool_text(c.all_modeled),
        },
        CheckView {
            id: "spell_mana_cost_profile_matches_legacy_vector"@,
            passed: c.observed_spend == expected,
            details: "observed_spend="@ + spec_int(c.observed_spend as int) + " expected_spend="@ + spec_int(expected),
        },
        CheckView {
            id: "spell_effect_note_diversity"@,
            passed: c.effect_notes >= 24,
            details: "distinct_effect_notes="@ + spec_dec(c.effect_notes as nat),
        },
    ]
}

fn check(id: &str, passed: bool, details: Vec<char>) -> (r: MatrixCheck)
    ensures
        check_views(seq![r])[0] == (CheckView { id: id@, passed, details: details@ }),
{
    MatrixCheck { id: string_of(&chars_of(id)), passed, details: string_of(&details) }
}

pub fn spell_checks(c: &SpellCycle) -> (r: Vec<MatrixCheck>)
    ensures
        check_views(r@) == spec_spell_checks(*c, spec_cost_sum(spec_legacy_spell_costs())),
{
    let expected = expected_mana_spend();
    let mut d1 = chars_of("legacy_catalog_spells=");
    push_dec(&mut d1, c.catalog_spells as u64);
    let mut d3 = chars_of("unique_names=");
    push_dec(&mut d3, c.unique_names as u64);
    extend_str(&mut d3, " modeled=");
    push_bool(&mut d3, c.all_modeled);
    let mut d4 = chars_of("observed_spend=");
    push_int(&mut d4, c.observed_spend as i64);
    extend_str(&mut d4, " expected_spend=");
    push_int(&mut d4, expected as i64);
    let mut d5 = chars_of("distinct_effect_notes=");
    push_dec(&mut d5, c.effect_notes as u64);
    let r = vec![
        check("spell_catalog_denominator_42", c.catalog_spells == 42, d1),
        check("spell_catalog_no_placeholders", c.no_placeholders,
            chars_of("catalog spell names do not contain placeholder signatures")),
        check("spell_dispatch_cycles_all_42_names", c.unique_names == 42 && c.all_modeled, d3),
        check("spell_mana_cost_profile_matches_legacy_vector", c.observed_spend == expected, d4),
        check("spell_effect_note_diversity", c.effect_notes >= 24, d5),
    ];
    assert(check_views(r@) =~= spec_spell_checks(*c, spec_cost_sum(spec_legacy_spell_costs())));
    r
}

/// A catalog spell name that is a placeholder.
pub open spec fn spec_is_placeholder_spell(name: Seq<char>) -> bool {
    spec_starts_with(name, "spell-"@) || spec_starts_with(name, "legacy-monster-"@)
}

/// Whether no spell name is a placeholder.
pub fn spell_names_clean(names: &Vec<String>) -> (r: bool)
    ensures
        r == forall|i: int| 0 <= i < names.len() ==> !spec_is_placeholder_spell(#[trigger] names@[i]@),
{
    let mut i: usize = 0;
    while i < names.len()
        invariant
            i <= names.len(),
            forall|k: int| 0 <= k < i ==> !spec_is_placeholder_spell(#[trigger] names@[k]@),
        decreases names.len() - i,
    {
        let n = chars_of(names[i].as_str());
        if starts_with_str(&n, "spell-") || starts_with_str(&n, "legacy-monster-") {
            return false;
        }
        i = i + 1;
    }
    true
}

/// A catalog name, in lower case, with a placeholder prefix.
pub open spec fn spec_has_placeholder_signature(name: Seq<char>) -> bool {
    let lower = spec_lowercase(name);
    spec_starts_with(lower, "spell-"@) || spec_starts_with(lower, "monster-"@) || spec_starts_with(lower, "legacy-monster-"@)
}

pub open spec fn spec_placeholder_count(names: Seq<Seq<char>>) -> nat
    decreases names.len(),
{
    if names.len() == 0 {
        0
    } else {
        spec_placeholder_count(names.drop_last()) + if spec_has_placeholder_signature(names.last()) {
            1nat
        } else {
            0nat
        }
    }
}

proof fn lemma_placeholder_count_le(names: Seq<Seq<char>>)
    ensures
        spec_placeholder_count(names) <= names.len(),
    decreases names.len(),
{
    if names.len() > 0 {
        lemma_placeholder_count_le(names.drop_last());
    }
}

pub open spec fn name_views(v: Seq<String>) -> Seq<Seq<char>> {
    Seq::new(v.len(), |i: int| v[i]@)
}

/// Number of catalog names (spells and monsters) with a placeholder
/// signature.
pub fn placeholder_signatures(names: &Vec<String>) -> (r: usize)
    ensures
        r == spec_placeholder_count(name_views(names@)),
{
    let ghost nv = name_views(names@);
    let mut n: usize = 0;
    let mut i: usize = 0;
    while i < names.len()
        invariant
            i <= names.len(),
            nv == name_views(names@),
            n == spec_placeholder_count(nv.take(i as int)),
        decreases names.len() - i,
    {
        assert(nv.take(i + 1).drop_last() =~= nv.take(i as int));
        proof {
            lemma_placeholder_count_le(nv.take(i as int));
        }
        let lower = lowercase(&chars_of(names[i].as_str()));
        if starts_with_str(&lower, "spell-") || starts_with_str(&lower, "monster-")
            || starts_with_str(&lower, "legacy-monster-") {
            n = n + 1;
        }
        i = i + 1;
    }
    assert(nv.take(names.len() as int) =~= nv);
    n
}

// ---------------------------------------------------------------------------
// Verdicts
// ---------------------------------------------------------------------------

/// A mapped matrix passes when its report sets `pass` or `passed`.
pub open spec fn spec_mapped_matrix_pass(f: JsonFields) -> bool {
    spec_bool_field(f, "pass"@) || spec_bool_field(f, "passed"@)
}

pub fn mapped_matrix_pass(f: &JsonFields) -> (r: bool)
    ensures
        r == spec_mapped_matrix_pass(*f),
{
    bool_field(f, "pass") || bool_field(f, "passed")
}

/// A count of a report, `default` unless the field is a non-negative
/// integer.
pub open spec fn spec_count_or(f: JsonFields, key: Seq<char>, default: u64) -> u64 {
    match spec_field(f, key) {
        Some(FieldView::Unsigned(n)) => n,
        _ => default,
    }
}

fn count_or(f: &JsonFields, key: &str, default: u64) -> (r: u64)
    ensures
        r == spec_count_or(*f, key@, default),
{
    if is_unsigned(f, key) {
        crate::fields::usize_field(f, key)
    } else {
        default
    }
}

fn is_unsigned(f: &JsonFields, key: &str) -> (r: bool)
    ensures
        r == (spec_field(*f, key@) matches Some(FieldView::Unsigned(_))),
{
    let mut i: usize = 0;
    let ghost v = crate::fields::fields_view(*f);
    assert(v.skip(0) =~= v);
    let k = chars_of(key);
    while i < f.entries.len()
        invariant
            i <= f.entries.len(),
            v == crate::fields::fields_view(*f),
            k@ == key@,
            crate::fields::spec_lookup(v, key@) == crate::fields::spec_lookup(v.skip(i as int), key@),
        decreases f.entries.len() - i,
    {
        assert(v.skip(i as int)[0] == v[i as int]);
        let name = chars_of(f.entries[i].0.as_str());
        if crate::text::chars_eq(&name, &k) {
            return match &f.entries[i].1 {
                crate::fields::FieldValue::Unsigned(_) => true,
                _ => false,
            };
        }
        assert(v.skip(i as int).drop_first() =~= v.skip(i + 1));
        i = i + 1;
    }
    assert(v.skip(i as int).len() == 0);
    false
}

/// The differential trace passes when no replay and no determinism run
/// failed; a report without the count counts as a failure.
pub open spec fn spec_differential_pass(replay: JsonFields, determinism: JsonFields) -> bool {
    spec_count_or(replay, "failed"@, 1) == 0 && spec_count_or(determinism, "divergent_runs"@, 1) == 0
}

pub fn differential_pass(replay: &JsonFields, determinism: &JsonFields) -> (r: bool)
    ensures
        r == spec_differential_pass(*replay, *determinism),
{
    count_or(replay, "failed", 1) == 0 && count_or(determinism, "divergent_runs", 1) == 0
}

// ---------------------------------------------------------------------------
// Recovery baseline
// ---------------------------------------------------------------------------

/// The artifacts the recovery baseline records.
pub open spec fn spec_recovery_required_artifacts() -> Seq<Seq<char>> {
    seq![
        "target/recovery-gap-ledger.json"@,
        "target/recovery-contract-guard.json"@,
        "target/recovery-rampart-startup-visual.json"@,
        "target/recovery-city-site-matrix.json"@,
        "target/recovery-overworld-transition-matrix.json"@,
        "target/recovery-spell-parity-matrix.json"@,
        "target/recovery-item-parity-matrix.json"@,
        "target/recovery-monster-combat-trap-matrix.json"@,
        "target/recovery-progression-ending-matrix.json"@,
        "target/recovery-save-options-wizard-matrix.json"@,
        "target/recovery-frontend-equivalence-matrix.json"@,
        "target/recovery-differential-trace-report.json"@,
        "target/recovery-burnin-window.json"@,
        "docs/migration/FULL_OMEGA_PARITY_RECOVERY_SCORECARD.md"@,
        "docs/migration/FULL_OMEGA_PARITY_RECOVERY_CLOSURE_REVIEW.md"@,
    ]
}

fn push_path(out: &mut Vec<String>, p: &str)
    ensures
        name_views(final(out)@) == name_views(old(out)@).push(p@),
{
    let ghost before = name_views(out@);
    out.push(string_of(&chars_of(p)));
    assert(name_views(out@) =~= before.push(p@));
}

/// The artifacts the recovery baseline records, in order.
pub fn recovery_required_artifacts() -> (r: Vec<String>)
    ensures
        name_views(r@) == spec_recovery_required_artifacts(),
{
    let ghost target = spec_recovery_required_artifacts();
    let mut out: Vec<String> = Vec::new();
    push_path(&mut out, "target/recovery-gap-ledger.json");
    assert(name_views(out@) =~= target.take(1));
    push_path(&mut out, "target/recovery-contract-guard.json");
    assert(name_views(out@) =~= target.take(2));
    push_path(&mut out, "target/recovery-rampart-startup-visual.json");
    assert(name_views(out@) =~= target.take(3));
    push_path(&mut out, "target/recovery-city-site-matrix.json");
    assert(name_views(out@) =~= target.take(4));
    push_path(&mut out, "target/recovery-overworld-transition-matrix.json");
    assert(name_views(out@) =~= target.take(5));
    push_path(&mut out, "target/recovery-spell-parity-matrix.json");
    assert(name_views(out@) =~= target.take(6));
    push_path(&mut out, "target/recovery-item-parity-matrix.json");
    assert(name_views(out@) =~= target.take(7));
    push_path(&mut out, "target/recovery-monster-combat-trap-matrix.json");
    assert(name_views(out@) =~= target.take(8));
    push_path(&mut out, "target/recovery-progression-ending-matrix.json");
    assert(name_views(out@) =~= target.take(9));
    push_path(&mut out, "target/recovery-save-options-wizard-matrix.json");
    assert(name_views(out@) =~= target.take(10));
    push_path(&mut out, "target/recovery-frontend-equivalence-matrix.json");
    assert(name_views(out@) =~= target.take(11));
    push_path(&mut out, "target/recovery-differential-trace-report.json");
    assert(name_views(out@) =~= target.take(12));
    push_path(&mut out, "target/recovery-burnin-window.json");
    assert(name_views(out@) =~= target.take(13));
    push_path(&mut out, "docs/migration/FULL_OMEGA_PARITY_RECOVERY_SCORECARD.md");
    assert(name_views(out@) =~= target.take(14));
    push_path(&mut out, "docs/migration/FULL_OMEGA_PARITY_RECOVERY_CLOSURE_REVIEW.md");
    assert(name_views(out@) =~= target.take(15));
    assert(target.take(15) =~= target);
    out
}

/// The record of a recovery artifact: whether it exists and its size.
#[derive(Debug, Clone)]
pub struct RecoverySnapshot {
    pub path: String,
    pub present: bool,
    pub size_bytes: u64,
}

/// The record of the artifact at `path`, given its size (`None` when its
/// metadata could not be read).
pub fn recovery_snapshot(path: &str, size: Option<u64>) -> (r: RecoverySnapshot)
    ensures
        r.path@ == path@,
        r.present == (size is Some),
        r.size_bytes == match size {
            Some(n) => n,
            None => 0,
        },
{
    match size {
        Some(n) => RecoverySnapshot { path: string_of(&chars_of(path)), present: true, size_bytes: n },
        None => RecoverySnapshot { path: string_of(&chars_of(path)), present: false, size_bytes: 0 },
    }
}

#[derive(Debug, Clone)]
pub struct RecoveryFreeze {
    pub generated_at_utc: String,
    pub status: String,
    pub total: usize,
    pub present: usize,
    pub missing: usize,
    pub artifacts: Vec<RecoverySnapshot>,
}

pub open spec fn spec_recovery_present(v: Seq<RecoverySnapshot>) -> nat
    decreases v.len(),
{
    if v.len() == 0 {
        0
    } else {
        spec_recovery_present(v.drop_last()) + if v.last().present {
            1nat
        } else {
            0nat
        }
    }
}

proof fn lemma_recovery_present_le(v: Seq<RecoverySnapshot>)
    ensures
        spec_recovery_present(v) <= v.len(),
    decreases v.len(),
{
    if v.len() > 0 {
        lemma_recovery_present_le(v.drop_last());
    }
}

/// The recovery baseline of the given records, stamped
/// `generated_at_utc`: it passes when none is missing.
pub fn recovery_freeze_at(artifacts: Vec<RecoverySnapshot>, generated_at_utc: String) -> (r: RecoveryFreeze)
    ensures
        r.artifacts@ == artifacts@,
        r.total == artifacts.len(),
        r.present == spec_recovery_present(artifacts@),
        r.missing == r.total - r.present,
        r.status@ == spec_status_text(r.missing as nat),
        r.generated_at_utc@ == generated_at_utc@,
{
    let ghost v = artifacts@;
    let mut present: usize = 0;
    let mut i: usize = 0;
    while i < artifacts.len()
        invariant
            i <= artifacts.len(),
            v == artifacts@,
            present == spec_recovery_present(v.take(i as int)),
        decreases artifacts.len() - i,
    {
        assert(v.take(i + 1).drop_last() =~= v.take(i as int));
        proof {
            lemma_recovery_present_le(v.take(i as int));
        }
        if artifacts[i].present {
            present = present + 1;
        }
        i = i + 1;
    }
    assert(v.take(artifacts.len() as int) =~= v);
    proof {
        lemma_recovery_present_le(v);
    }
    let total = artifacts.len();
    let missing = total - present;
    let status = if missing == 0 {
        string_of(&chars_of("PASS"))
    } else {
        string_of(&chars_of("FAIL"))
    };
    RecoveryFreeze { generated_at_utc, status, total, present, missing, artifacts }
}

/// The recovery baseline, stamped with the current time.
pub fn build_recovery_freeze(artifacts: Vec<RecoverySnapshot>) -> (r: RecoveryFreeze)
    ensures
        r.artifacts@ == artifacts@,
        r.total == artifacts.len(),
        r.present == spec_recovery_present(artifacts@),
        r.missing == r.total - r.present,
        r.status@ == spec_status_text(r.missing as nat),
        exists|secs: u64| r.generated_at_utc@ == spec_unix_stamp(secs as nat),
{
    let stamp = now_utc_unix();
    recovery_freeze_at(artifacts, stamp)
}

/// The verdicts of the recovery artifacts.
#[derive(Debug, Clone, Copy)]
pub struct RecoveryVerdicts {
    pub gap: bool,
    pub city_site: bool,
    pub overworld: bool,
    pub spell: bool,
    pub item: bool,
    pub combat_trap: bool,
    pub progression: bool,
    pub save_options: bool,
    pub frontend: bool,
    pub differential: bool,
    pub burnin: bool,
}

/// The recovery passes when every artifact passes and the baseline is
/// complete.
pub open spec fn spec_recovery_pass(v: RecoveryVerdicts, freeze: RecoveryFreeze) -> bool {
    v.gap && v.city_site && v.overworld && v.spell && v.item && v.combat_trap && v.progression
        && v.save_options && v.frontend && v.differential && v.burnin && freeze.status@ == "PASS"@
}

pub fn recovery_pass(v: &RecoveryVerdicts, freeze: &RecoveryFreeze) -> (r: bool)
    ensures
        r == spec_recovery_pass(*v, *freeze),
{
    let st = chars_of(freeze.status.as_str());
    v.gap && v.city_site && v.overworld && v.spell && v.item && v.combat_trap && v.progression
        && v.save_options && v.frontend && v.differential && v.burnin && crate::text::chars_eq_str(&st, "PASS")
}


// ---------------------------------------------------------------------------
// The spell cycle
// ---------------------------------------------------------------------------

/// The spell a cast note names, between backquotes.
pub open spec fn spec_cast_name(c: Option<(Seq<char>, bool)>) -> Option<Seq<char>> {
    match c {
        Some((note, _)) => spec_capture_between(note, '`'),
        None => None,
    }
}

/// The effect a cast note reports, in its last parentheses.
pub open spec fn spec_cast_effect(c: Option<(Seq<char>, bool)>) -> Option<Seq<char>> {
    match c {
        Some((note, _)) => spec_capture_effect_note(note),
        None => None,
    }
}

/// The values that the casts give, in cast order, skipping those without.
pub open spec fn spec_cast_values(cs: Seq<Option<(Seq<char>, bool)>>, effects: bool) -> Seq<Seq<char>>
    decreases cs.len(),
{
    if cs.len() == 0 {
        Seq::empty()
    } else {
        let prev = spec_cast_values(cs.drop_last(), effects);
        match if effects { spec_cast_effect(cs.last()) } else { spec_cast_name(cs.last()) } {
            Some(v) => prev.push(v),
            None => prev,
        }
    }
}

/// A cast was fully modelled when the runtime reported it and said so.
pub open spec fn spec_cast_modeled(c: Option<(Seq<char>, bool)>) -> bool {
    c matches Some((_, fully)) && fully
}

pub open spec fn casts_view(v: Seq<Option<(String, bool)>>) -> Seq<Option<(Seq<char>, bool)>> {
    Seq::new(v.len(), |i: int| crate::refresh::handled_view(v[i]))
}

/// What a cycle of casts observed, given the catalog's spell names, the
/// runtime's report on each cast (its note and whether it was fully
/// modelled, `None` when it reported nothing) and the mana spent: distinct
/// spell names and effect notes are counted once each.
pub open spec fn is_spell_cycle_of(c: SpellCycle, names: Seq<String>, casts: Seq<Option<(Seq<char>, bool)>>, spend: i32) -> bool {
    &&& c.catalog_spells == names.len()
    &&& c.no_placeholders == forall|i: int| 0 <= i < names.len() ==> !spec_is_placeholder_spell(#[trigger] names[i]@)
    &&& c.unique_names == spec_cast_values(casts, false).to_set().len()
    &&& c.effect_notes == spec_cast_values(casts, true).to_set().len()
    &&& c.all_modeled == forall|i: int| 0 <= i < casts.len() ==> spec_cast_modeled(#[trigger] casts[i])
    &&& c.observed_spend == spend
}

fn push_opt_chars(out: &mut Vec<Vec<char>>, v: Option<String>)
    ensures
        final(out).deep_view() == match opt_text_view(v) {
            Some(t) => old(out).deep_view().push(t),
            None => old(out).deep_view(),
        },
{
    match v {
        Some(t) => {
            let ghost before = out.deep_view();
            out.push(chars_of(t.as_str()));
            assert(out.deep_view() =~= before.push(t@));
        },
        None => {},
    }
}

pub fn spell_cycle_of(spell_names: &Vec<String>, casts: &Vec<Option<(String, bool)>>, observed_spend: i32) -> (r: SpellCycle)
    ensures
        is_spell_cycle_of(r, spell_names@, casts_view(casts@), observed_spend),
{
    let ghost cv = casts_view(casts@);
    let mut names: Vec<Vec<char>> = Vec::new();
    let mut effects: Vec<Vec<char>> = Vec::new();
    let mut all_modeled = true;
    let mut i: usize = 0;
    while i < casts.len()
        invariant
            i <= casts.len(),
            cv == casts_view(casts@),
            names.deep_view() == spec_cast_values(cv.take(i as int), false),
            effects.deep_view() == spec_cast_values(cv.take(i as int), true),
            all_modeled == forall|k: int| 0 <= k < i ==> spec_cast_modeled(#[trigger] cv[k]),
        decreases casts.len() - i,
    {
        assert(cv.take(i + 1).drop_last() =~= cv.take(i as int));
        assert(cv.take(i + 1).last() == cv[i as int]);
        match &casts[i] {
            Some((note, fully)) => {
                if !*fully {
                    all_modeled = false;
                }
                push_opt_chars(&mut names, capture_between(note.as_str(), '`'));
                push_opt_chars(&mut effects, capture_effect_note(note.as_str()));
            },
            None => {
                all_modeled = false;
            },
        }
        i = i + 1;
    }
    assert(cv.take(casts.len() as int) =~= cv);
    let unique = sorted_key_set(&names);
    let distinct = sorted_key_set(&effects);
    proof {
        lemma_sorted_set_size(unique.deep_view(), names.deep_view());
        lemma_sorted_set_size(distinct.deep_view(), effects.deep_view());
    }
    SpellCycle {
        catalog_spells: spell_names.len(),
        no_placeholders: spell_names_clean(spell_names),
        unique_names: unique.len(),
        all_modeled,
        observed_spend,
        effect_notes: distinct.len(),
    }
}

/// The spell parity matrix of a cycle of casts, stamped with the current
/// time.
pub fn spell_parity_matrix(spell_names: &Vec<String>, casts: &Vec<Option<(String, bool)>>, observed_spend: i32) -> (r: TrueMatrix)
    ensures
        exists|c: SpellCycle|
            is_spell_cycle_of(c, spell_names@, casts_view(casts@), observed_spend)
                && check_views(r.checks@) == spec_spell_checks(c, spec_cost_sum(spec_legacy_spell_costs())),
        is_matrix_of(r, r.checks@),
        exists|secs: u64| r.generated_at_utc@ == spec_unix_stamp(secs as nat),
{
    let cycle = spell_cycle_of(spell_names, casts, observed_spend);
    let checks = spell_checks(&cycle);
    true_matrix(checks)
}

// ---------------------------------------------------------------------------
// The gap ledger
// ---------------------------------------------------------------------------

/// What the gap ledger reads: the open counts of the classic gap ledger,
/// the legacy catalogs, and the bootstrapped game before and after a trip
/// out of the city and back (the semantic map binding by its `Debug` name,
/// and whether the shown rows switched to that map).
#[derive(Debug, Clone)]
pub struct GapEvidence {
    pub open_p0: u64,
    pub open_p1: u64,
    pub total_open: u64,
    /// The classic gap ledger's items, copied as they are.
    pub items: FieldValue,
    pub spell_names: Vec<String>,
    pub monster_names: Vec<String>,
    pub traps: usize,
    pub city_sites: usize,
    pub item_family_sizes: Vec<usize>,
    pub bounds_width: i32,
    pub bounds_height: i32,
    pub city_site_cells: usize,
    pub country_width: i32,
    pub country_height: i32,
    pub country_cells: usize,
    pub country_semantic: String,
    pub country_view_switched: bool,
    pub city_semantic: String,
    pub city_view_switched: bool,
}

#[derive(Debug, Clone)]
pub struct GapLedger {
    pub generated_at_utc: String,
    pub open_p0: u64,
    pub open_p1: u64,
    pub total_open: u64,
    pub placeholder_signatures: usize,
    pub r1_checks_total: usize,
    pub r1_checks_failed: usize,
    pub spells: usize,
    pub monsters: usize,
    pub traps: usize,
    pub city_sites: usize,
    pub item_families: usize,
    pub r1_checks: Vec<MatrixCheck>,
    pub items: FieldValue,
    pub pass: bool,
}

/// A size that is never negative.
pub open spec fn spec_clamp0(x: i32) -> nat {
    if x < 0 {
        0
    } else {
        x as nat
    }
}

/// Number of non-empty item families.
pub open spec fn spec_nonzero_count(v: Seq<usize>) -> nat
    decreases v.len(),
{
    if v.len() == 0 {
        0
    } else {
        spec_nonzero_count(v.drop_last()) + if v.last() > 0 {
            1nat
        } else {
            0nat
        }
    }
}

/// The map checks of the gap ledger: the city site grid covers the map,
/// the country grid is loaded, and leaving and re-entering the city
/// switches the semantic binding and the shown rows.
pub open spec fn spec_gap_checks(e: GapEvidence) -> Seq<CheckView> {
    let expected = spec_clamp0(e.bounds_width) * spec_clamp0(e.bounds_height);
    let country_ok = e.country_width > 0 && e.country_height > 0 && e.country_cells == spec_clamp0(e.country_width)
        * spec_clamp0(e.country_height);
    let country_sem = e.country_semantic@ == "Country"@;
    let city_sem = e.city_semantic@ == "City"@;
    seq![
        CheckView {
            id: "tile_site_grid_loaded_from_city_map"@,
            passed: e.city_site_cells != 0 && e.city_site_cells == expected,
            details: "site_grid_cells="@ + spec_dec(e.city_site_cells as nat) + " expected="@ + spec_dec(expected),
        },
        CheckView {
            id: "country_grid_loaded_from_country_map"@,
            passed: country_ok,
            details: "country_dims="@ + spec_int(e.country_width as int) + "x"@ + spec_int(e.country_height as int)
                + " cells="@ + spec_dec(e.country_cells as nat),
        },
        CheckView {
            id: "semantic_map_binding_transitions"@,
            passed: country_sem && city_sem,
            details: "country_semantic="@ + spec_bool_text(country_sem) + " city_semantic="@ + spec_bool_text(city_sem),
        },
        CheckView {
            id: "map_rows_switch_with_semantic_binding"@,
            passed: e.country_view_switched && e.city_view_switched,
            details: "country_view="@ + spec_bool_text(e.country_view_switched) + " city_view="@ + spec_bool_text(
                e.city_view_switched,
            ),
        },
    ]
}

/// Number of checks that failed.
pub open spec fn spec_views_failed(cs: Seq<CheckView>) -> nat
    decreases cs.len(),
{
    if cs.len() == 0 {
        0
    } else {
        spec_views_failed(cs.drop_last()) + if cs.last().passed {
            0nat
        } else {
            1nat
        }
    }
}

/// `l` is the gap ledger of `e`: it passes when nothing is open, no catalog
/// spell or monster is a placeholder and every map check passes.
pub open spec fn is_gap_ledger_of(l: GapLedger, e: GapEvidence) -> bool {
    &&& l.open_p0 == e.open_p0
    &&& l.open_p1 == e.open_p1
    &&& l.total_open == e.total_open
    &&& l.items@ == e.items@
    &&& l.placeholder_signatures == spec_placeholder_count(name_views(e.spell_names@) + name_views(e.monster_names@))
    &&& check_views(l.r1_checks@) == spec_gap_checks(e)
    &&& l.r1_checks_total == 4
    &&& l.r1_checks_failed == spec_views_failed(spec_gap_checks(e))
    &&& l.spells == e.spell_names.len()
    &&& l.monsters == e.monster_names.len()
    &&& l.traps == e.traps
    &&& l.city_sites == e.city_sites
    &&& l.item_families == spec_nonzero_count(e.item_family_sizes@)
    &&& l.pass == (e.open_p0 == 0 && e.open_p1 == 0 && e.total_open == 0 && l.placeholder_signatures == 0
        && l.r1_checks_failed == 0)
}

fn clamp0(x: i32) -> (r: u64)
    ensures
        r == spec_clamp0(x),
{
    if x < 0 {
        0
    } else {
        x as u64
    }
}

fn grid_size(w: i32, h: i32) -> (r: u64)
    ensures
        r == spec_clamp0(w) * spec_clamp0(h),
{
    let a = clamp0(w);
    let b = clamp0(h);
    assert(a * b <= 0x8000_0000u64 * 0x8000_0000u64) by (nonlinear_arith)
        requires
            a <= 0x8000_0000u64,
            b <= 0x8000_0000u64,
    ;
    a * b
}

fn nonzero_count(v: &Vec<usize>) -> (r: usize)
    ensures
        r == spec_nonzero_count(v@),
{
    let mut n: usize = 0;
    let mut i: usize = 0;
    while i < v.len()
        invariant
            i <= v.len(),
            n == spec_nonzero_count(v@.take(i as int)),
            n <= i,
        decreases v.len() - i,
    {
        assert(v@.take(i + 1).drop_last() =~= v@.take(i as int));
        if v[i] > 0 {
            n = n + 1;
        }
        i = i + 1;
    }
    assert(v@.take(v.len() as int) =~= v@);
    n
}

fn views_failed(cs: &Vec<MatrixCheck>) -> (r: usize)
    ensures
        r == spec_views_failed(check_views(cs@)),
        r <= cs.len(),
{
    let ghost cv = check_views(cs@);
    let mut n: usize = 0;
    let mut i: usize = 0;
    while i < cs.len()
        invariant
            i <= cs.len(),
            cv == check_views(cs@),
            n == spec_views_failed(cv.take(i as int)),
            n <= i,
        decreases cs.len() - i,
    {
        assert(cv.take(i + 1).drop_last() =~= cv.take(i as int));
        if !cs[i].passed {
            n = n + 1;
        }
        i = i + 1;
    }
    assert(cv.take(cs.len() as int) =~= cv);
    n
}

fn joined_names(a: &Vec<String>, b: &Vec<String>) -> (r: Vec<String>)
    ensures
        name_views(r@) == name_views(a@) + name_views(b@),
{
    let mut out: Vec<String> = Vec::new();
    let mut i: usize = 0;
    while i < a.len()
        invariant
            i <= a.len(),
            name_views(out@) == name_views(a@).take(i as int),
        decreases a.len() - i,
    {
        let ghost before = name_views(out@);
        out.push(string_of(&chars_of(a[i].as_str())));
        assert(name_views(out@) =~= before.push(a@[i as int]@));
        assert(name_views(a@).take(i + 1) =~= name_views(a@).take(i as int).push(a@[i as int]@));
        i = i + 1;
    }
    assert(name_views(a@).take(a.len() as int) =~= name_views(a@));
    let mut j: usize = 0;
    while j < b.len()
        invariant
            j <= b.len(),
            name_views(out@) == name_views(a@) + name_views(b@).take(j as int),
        decreases b.len() - j,
    {
        let ghost before = name_views(out@);
        out.push(string_of(&chars_of(b[j].as_str())));
        assert(name_views(out@) =~= before.push(b@[j as int]@));
        assert(name_views(b@).take(j + 1) =~= name_views(b@).take(j as int).push(b@[j as int]@));
        j = j + 1;
    }
    assert(name_views(b@).take(b.len() as int) =~= name_views(b@));
    out
}

fn gap_checks(e: &GapEvidence) -> (r: Vec<MatrixCheck>)
    ensures
        check_views(r@) == spec_gap_checks(*e),
{
    let expected = grid_size(e.bounds_width, e.bounds_height);
    let country_ok = e.country_width > 0 && e.country_height > 0 && e.country_cells as u64 == grid_size(
        e.country_width,
        e.country_height,
    );
    let cs = chars_of(e.country_semantic.as_str());
    let country_sem = crate::text::chars_eq_str(&cs, "Country");
    let ys = chars_of(e.city_semantic.as_str());
    let city_sem = crate::text::chars_eq_str(&ys, "City");
    let mut d1 = chars_of("site_grid_cells=");
    push_dec(&mut d1, e.city_site_cells as u64);
    extend_str(&mut d1, " expected=");
    push_dec(&mut d1, expected);
    let mut d2 = chars_of("country_dims=");
    push_int(&mut d2, e.country_width as i64);
    extend_str(&mut d2, "x");
    push_int(&mut d2, e.country_height as i64);
    extend_str(&mut d2, " cells=");
    push_dec(&mut d2, e.country_cells as u64);
    let mut d3 = chars_of("country_semantic=");
    push_bool(&mut d3, country_sem);
    extend_str(&mut d3, " city_semantic=");
    push_bool(&mut d3, city_sem);
    let mut d4 = chars_of("country_view=");
    push_bool(&mut d4, e.country_view_switched);
    extend_str(&mut d4, " city_view=");
    push_bool(&mut d4, e.city_view_switched);
    let r = vec![
        check("tile_site_grid_loaded_from_city_map", e.city_site_cells != 0 && e.city_site_cells as u64 == expected, d1),
        check("country_grid_loaded_from_country_map", country_ok, d2),
        check("semantic_map_binding_transitions", country_sem && city_sem, d3),
        check("map_rows_switch_with_semantic_binding", e.country_view_switched && e.city_view_switched, d4),
    ];
    assert(check_views(r@) =~= spec_gap_checks(*e));
    r
}

/// The gap ledger, stamped `generated_at_utc`.
pub fn gap_ledger_at(e: &GapEvidence, generated_at_utc: String) -> (r: GapLedger)
    ensures
        is_gap_ledger_of(r, *e),
        r.generated_at_utc@ == generated_at_utc@,
{
    let names = joined_names(&e.spell_names, &e.monster_names);
    let placeholders = placeholder_signatures(&names);
    let checks = gap_checks(e);
    let failed = views_failed(&checks);
    let pass = e.open_p0 == 0 && e.open_p1 == 0 && e.total_open == 0 && placeholders == 0 && failed == 0;
    GapLedger {
        generated_at_utc,
        open_p0: e.open_p0,
        open_p1: e.open_p1,
        total_open: e.total_open,
        placeholder_signatures: placeholders,
        r1_checks_total: checks.len(),
        r1_checks_failed: failed,
        spells: e.spell_names.len(),
        monsters: e.monster_names.len(),
        traps: e.traps,
        city_sites: e.city_sites,
        item_families: nonzero_count(&e.item_family_sizes),
        r1_checks: checks,
        items: crate::fields::clone_field(&e.items),
        pass,
    }
}

/// The gap ledger, stamped with the current time.
pub fn build_gap_ledger(e: &GapEvidence) -> (r: GapLedger)
    ensures
        is_gap_ledger_of(r, *e),
        exists|secs: u64| r.generated_at_utc@ == spec_unix_stamp(secs as nat),
{
    let stamp = now_utc_unix();
    gap_ledger_at(e, stamp)
}

} // verus!
