//! Markdown and YAML renderings of ledgers, parity matrices, defect boards
//! and smoke reports.
use vstd::prelude::*;

use crate::mechanics::{coverage_name, spec_coverage_name, spec_status_name, spec_tier_name, status_name, tier_name, MechanicParityRow, MechanicsLedger, MechanicsParityMatrix, MechanicsSmokeReport, MissingDefectBoard, MechanicEntry, ParityStatus, MechanicTier};
use crate::clock::{now_utc_unix, spec_unix_stamp};
use crate::text::{chars_of, extend, extend_str, lowercase, push_dec, replace_char_str, spec_dec, spec_lowercase, spec_replace_char, spec_trim, string_of, trim};

verus! {

broadcast use crate::views::group_view_lemmas;

/// A table cell: `|` is escaped, line breaks become spaces, and the text is
/// trimmed.
pub open spec fn spec_sanitize_table(v: Seq<char>) -> Seq<char> {
    spec_trim(
        spec_replace_char(
            spec_replace_char(spec_replace_char(v, '|', "\\|"@), '\n', " "@),
            '\r',
            " "@,
        ),
    )
}

pub fn sanitize_table(value: &str) -> (r: String)
    ensures
        r@ == spec_sanitize_table(value@),
{
    let v = chars_of(value);
    let a = replace_char_str(&v, '|', "\\|");
    let b = replace_char_str(&a, '\n', " ");
    let c = replace_char_str(&b, '\r', " ");
    string_of(&trim(&c))
}

fn push_sanitized(out: &mut Vec<char>, value: &String)
    ensures
        final(out)@ == old(out)@ + spec_sanitize_table(value@),
{
    let s = sanitize_table(value.as_str());
    extend_str(out, s.as_str());
}

/// A single-quoted YAML scalar body: `'` is doubled.
pub open spec fn spec_escape_yaml(v: Seq<char>) -> Seq<char> {
    spec_replace_char(v, '\'', "''"@)
}

pub fn escape_yaml(value: &str) -> (r: String)
    ensures
        r@ == spec_escape_yaml(value@),
{
    let v = chars_of(value);
    string_of(&replace_char_str(&v, '\'', "''"))
}

/// `format!("{}", b)`.
pub open spec fn spec_bool_text(b: bool) -> Seq<char> {
    if b {
        "true"@
    } else {
        "false"@
    }
}

pub fn push_bool(out: &mut Vec<char>, b: bool)
    ensures
        final(out)@ == old(out)@ + spec_bool_text(b),
{
    if b {
        extend_str(out, "true");
    } else {
        extend_str(out, "false");
    }
}

fn push_string(out: &mut Vec<char>, s: &String)
    ensures
        final(out)@ == old(out)@ + s@,
{
    extend_str(out, s.as_str());
}

fn push_count(out: &mut Vec<char>, n: usize)
    ensures
        final(out)@ == old(out)@ + spec_dec(n as nat),
{
    push_dec(out, n as u64);
}

// ---------------------------------------------------------------------------
// Ledger
// ---------------------------------------------------------------------------

pub open spec fn spec_tier_count_rows(rows: Seq<(MechanicTier, usize)>) -> Seq<char>
    decreases rows.len(),
{
    if rows.len() == 0 {
        Seq::empty()
    } else {
        spec_tier_count_rows(rows.drop_last()) + spec_tier_count_row(rows.last())
    }
}

pub open spec fn spec_text_count_rows(rows: Seq<(String, usize)>) -> Seq<char>
    decreases rows.len(),
{
    if rows.len() == 0 {
        Seq::empty()
    } else {
        spec_text_count_rows(rows.drop_last()) + spec_text_count_row(rows.last())
    }
}

pub open spec fn spec_entry_row(e: MechanicEntry) -> Seq<char> {
    "| "@ + spec_sanitize_table(e.id@) + " | "@ + spec_tier_name(e.tier) + " | "@
        + spec_sanitize_table(e.domain@) + " | "@ + spec_coverage_name(e.coverage_kind) + " | `"@
        + spec_sanitize_table(e.legacy_anchor@) + "` | "@ + spec_sanitize_table(e.trigger@)
        + " |\n"@
}

pub open spec fn spec_entry_rows(es: Seq<MechanicEntry>) -> Seq<char>
    decreases es.len(),
{
    if es.len() == 0 {
        Seq::empty()
    } else {
        spec_entry_rows(es.drop_last()) + spec_entry_row(es.last())
    }
}

pub open spec fn spec_tier_count_row(row: (MechanicTier, usize)) -> Seq<char> {
    "| "@ + spec_tier_name(row.0) + " | "@ + spec_dec(row.1 as nat) + " |\n"@
}

pub open spec fn spec_text_count_row(row: (String, usize)) -> Seq<char> {
    "| "@ + row.0@ + " | "@ + spec_dec(row.1 as nat) + " |\n"@
}

fn push_tier_count_row(out: &mut Vec<char>, row: (MechanicTier, usize))
    ensures
        final(out)@ == old(out)@ + spec_tier_count_row(row),
{
    extend_str(out, "| ");
    extend_str(out, tier_name(row.0));
    extend_str(out, " | ");
    push_count(out, row.1);
    extend_str(out, " |\n");
}

fn push_text_count_row(out: &mut Vec<char>, row: &(String, usize))
    ensures
        final(out)@ == old(out)@ + spec_text_count_row(*row),
{
    extend_str(out, "| ");
    push_string(out, &row.0);
    extend_str(out, " | ");
    push_count(out, row.1);
    extend_str(out, " |\n");
}

fn push_entry_row(out: &mut Vec<char>, e: &MechanicEntry)
    ensures
        final(out)@ == old(out)@ + spec_entry_row(*e),
{
    extend_str(out, "| ");
    push_sanitized(out, &e.id);
    extend_str(out, " | ");
    extend_str(out, tier_name(e.tier));
    extend_str(out, " | ");
    push_sanitized(out, &e.domain);
    extend_str(out, " | ");
    extend_str(out, coverage_name(e.coverage_kind));
    extend_str(out, " | `");
    push_sanitized(out, &e.legacy_anchor);
    extend_str(out, "` | ");
    push_sanitized(out, &e.trigger);
    extend_str(out, " |\n");
}

/// The Markdown rendering of a ledger.
pub open spec fn spec_ledger_markdown(l: MechanicsLedger, title: Seq<char>) -> Seq<char> {
    "# "@ + title + "\n\n"@ + "- source: `"@ + l.source@ + "`\n- generated_at_utc: `"@
        + l.generated_at_utc@ + "`\n- total: `"@ + spec_dec(l.total as nat) + "`\n\n"@
        + "## Counts by Tier\n\n| tier | count |\n|---|---:|\n"@ + spec_tier_count_rows(
        l.by_tier@,
    ) + "\n## Counts by Domain\n\n| domain | count |\n|---|---:|\n"@ + spec_text_count_rows(
        l.by_domain@,
    )
        + "\n## Entries\n\n| id | tier | domain | coverage | anchor | trigger |\n|---|---|---|---|---|---|\n"@
        + spec_entry_rows(l.entries@)
}

pub fn ledger_to_markdown(ledger: &MechanicsLedger, title: &str) -> (r: String)
    ensures
        r@ == spec_ledger_markdown(*ledger, title@),
{
    let mut out: Vec<char> = Vec::new();
    extend_str(&mut out, "# ");
    extend_str(&mut out, title);
    extend_str(&mut out, "\n\n");
    extend_str(&mut out, "- source: `");
    push_string(&mut out, &ledger.source);
    extend_str(&mut out, "`\n- generated_at_utc: `");
    push_string(&mut out, &ledger.generated_at_utc);
    extend_str(&mut out, "`\n- total: `");
    push_count(&mut out, ledger.total);
    extend_str(&mut out, "`\n\n");
    extend_str(&mut out, "## Counts by Tier\n\n| tier | count |\n|---|---:|\n");
    let ghost head = out@;
    let mut i: usize = 0;
    while i < ledger.by_tier.len()
        invariant
            i <= ledger.by_tier.len(),
            out@ == head + spec_tier_count_rows(ledger.by_tier@.take(i as int)),
        decreases ledger.by_tier.len() - i,
    {
        assert(ledger.by_tier@.take(i + 1).drop_last() == ledger.by_tier@.take(i as int));
        push_tier_count_row(&mut out, ledger.by_tier[i]);
        i = i + 1;
    }
    assert(ledger.by_tier@.take(ledger.by_tier.len() as int) == ledger.by_tier@);
    extend_str(&mut out, "\n## Counts by Domain\n\n| domain | count |\n|---|---:|\n");
    let ghost head2 = out@;
    let mut j: usize = 0;
    while j < ledger.by_domain.len()
        invariant
            j <= ledger.by_domain.len(),
            out@ == head2 + spec_text_count_rows(ledger.by_domain@.take(j as int)),
        decreases ledger.by_domain.len() - j,
    {
        assert(ledger.by_domain@.take(j + 1).drop_last() == ledger.by_domain@.take(j as int));
        push_text_count_row(&mut out, &ledger.by_domain[j]);
        j = j + 1;
    }
    assert(ledger.by_domain@.take(ledger.by_domain.len() as int) == ledger.by_domain@);
    extend_str(
        &mut out,
        "\n## Entries\n\n| id | tier | domain | coverage | anchor | trigger |\n|---|---|---|---|---|---|\n",
    );
    let ghost head3 = out@;
    let mut k: usize = 0;
    while k < ledger.entries.len()
        invariant
            k <= ledger.entries.len(),
            out@ == head3 + spec_entry_rows(ledger.entries@.take(k as int)),
        decreases ledger.entries.len() - k,
    {
        assert(ledger.entries@.take(k + 1).drop_last() == ledger.entries@.take(k as int));
        push_entry_row(&mut out, &ledger.entries[k]);
        k = k + 1;
    }
    assert(ledger.entries@.take(ledger.entries.len() as int) == ledger.entries@);
    string_of(&out)
}

// ---------------------------------------------------------------------------
// Parity matrix
// ---------------------------------------------------------------------------

pub open spec fn spec_status_count_rows(rows: Seq<(ParityStatus, usize)>) -> Seq<char>
    decreases rows.len(),
{
    if rows.len() == 0 {
        Seq::empty()
    } else {
        spec_status_count_rows(rows.drop_last()) + spec_status_count_row(rows.last())
    }
}

pub open spec fn spec_status_count_row(row: (ParityStatus, usize)) -> Seq<char> {
    "| "@ + spec_status_name(row.0) + " | "@ + spec_dec(row.1 as nat) + " |\n"@
}

fn push_status_count_row(out: &mut Vec<char>, row: (ParityStatus, usize))
    ensures
        final(out)@ == old(out)@ + spec_status_count_row(row),
{
    extend_str(out, "| ");
    extend_str(out, status_name(row.0));
    extend_str(out, " | ");
    push_count(out, row.1);
    extend_str(out, " |\n");
}

pub open spec fn spec_parity_row(r: MechanicParityRow) -> Seq<char> {
    "| "@ + spec_sanitize_table(r.mechanic_id@) + " | "@ + spec_status_name(r.parity_status)
        + " | "@ + spec_tier_name(r.tier) + " | "@ + spec_sanitize_table(r.domain@) + " | "@
        + spec_sanitize_table(r.evidence_static@) + " | "@ + spec_sanitize_table(
        r.evidence_dynamic@,
    ) + " |\n"@
}

pub open spec fn spec_parity_rows(rows: Seq<MechanicParityRow>) -> Seq<char>
    decreases rows.len(),
{
    if rows.len() == 0 {
        Seq::empty()
    } else {
        spec_parity_rows(rows.drop_last()) + spec_parity_row(rows.last())
    }
}

/// The Markdown rendering of a parity matrix.
pub open spec fn spec_matrix_markdown(m: MechanicsParityMatrix, title: Seq<char>) -> Seq<char> {
    "# "@ + title + "\n\n"@ + "- generated_at_utc: `"@ + m.generated_at_utc@ + "`\n- total: `"@
        + spec_dec(m.total as nat) + "`\n- pass: `"@ + spec_bool_text(m.pass)
        + "`\n- unknown: `"@ + spec_dec(m.unknown as nat) + "`\n- main_non_equivalent: `"@
        + spec_dec(m.main_non_equivalent as nat) + "`\n- unresolved_gameplay: `"@ + spec_dec(
        m.unresolved_gameplay as nat,
    ) + "`\n- gameplay_excluded: `"@ + spec_dec(m.gameplay_excluded as nat) + "`\n\n"@
        + "## Counts by Status\n\n| status | count |\n|---|---:|\n"@ + spec_status_count_rows(
        m.by_status@,
    )
        + "\n## Rows\n\n| mechanic_id | status | tier | domain | static evidence | dynamic evidence |\n|---|---|---|---|---|---|\n"@
        + spec_parity_rows(m.rows@)
}

fn push_parity_row(out: &mut Vec<char>, row: &MechanicParityRow)
    ensures
        final(out)@ == old(out)@ + spec_parity_row(*row),
{
    extend_str(out, "| ");
    push_sanitized(out, &row.mechanic_id);
    extend_str(out, " | ");
    extend_str(out, status_name(row.parity_status));
    extend_str(out, " | ");
    extend_str(out, tier_name(row.tier));
    extend_str(out, " | ");
    push_sanitized(out, &row.domain);
    extend_str(out, " | ");
    push_sanitized(out, &row.evidence_static);
    extend_str(out, " | ");
    push_sanitized(out, &row.evidence_dynamic);
    extend_str(out, " |\n");
}

pub fn matrix_to_markdown(matrix: &MechanicsParityMatrix, title: &str) -> (r: String)
    ensures
        r@ == spec_matrix_markdown(*matrix, title@),
{
    let mut out: Vec<char> = Vec::new();
    extend_str(&mut out, "# ");
    extend_str(&mut out, title);
    extend_str(&mut out, "\n\n");
    extend_str(&mut out, "- generated_at_utc: `");
    push_string(&mut out, &matrix.generated_at_utc);
    extend_str(&mut out, "`\n- total: `");
    push_count(&mut out, matrix.total);
    extend_str(&mut out, "`\n- pass: `");
    push_bool(&mut out, matrix.pass);
    extend_str(&mut out, "`\n- unknown: `");
    push_count(&mut out, matrix.unknown);
    extend_str(&mut out, "`\n- main_non_equivalent: `");
    push_count(&mut out, matrix.main_non_equivalent);
    extend_str(&mut out, "`\n- unresolved_gameplay: `");
    push_count(&mut out, matrix.unresolved_gameplay);
    extend_str(&mut out, "`\n- gameplay_excluded: `");
    push_count(&mut out, matrix.gameplay_excluded);
    extend_str(&mut out, "`\n\n");
    extend_str(&mut out, "## Counts by Status\n\n| status | count |\n|---|---:|\n");
    let ghost head = out@;
    let mut i: usize = 0;
    while i < matrix.by_status.len()
        invariant
            i <= matrix.by_status.len(),
            out@ == head + spec_status_count_rows(matrix.by_status@.take(i as int)),
        decreases matrix.by_status.len() - i,
    {
        assert(matrix.by_status@.take(i + 1).drop_last() == matrix.by_status@.take(i as int));
        push_status_count_row(&mut out, matrix.by_status[i]);
        i = i + 1;
    }
    assert(matrix.by_status@.take(matrix.by_status.len() as int) == matrix.by_status@);
    extend_str(
        &mut out,
        "\n## Rows\n\n| mechanic_id | status | tier | domain | static evidence | dynamic evidence |\n|---|---|---|---|---|---|\n",
    );
    let ghost head2 = out@;
    let mut k: usize = 0;
    while k < matrix.rows.len()
        invariant
            k <= matrix.rows.len(),
            out@ == head2 + spec_parity_rows(matrix.rows@.take(k as int)),
        decreases matrix.rows.len() - k,
    {
        assert(matrix.rows@.take(k + 1).drop_last() == matrix.rows@.take(k as int));
        push_parity_row(&mut out, &matrix.rows[k]);
        k = k + 1;
    }
    assert(matrix.rows@.take(matrix.rows.len() as int) == matrix.rows@);
    string_of(&out)
}

// ---------------------------------------------------------------------------
// Defect board and smoke report
// ---------------------------------------------------------------------------

pub open spec fn spec_defect_row(d: crate::mechanics::MissingDefect) -> Seq<char> {
    "| "@ + spec_sanitize_table(d.id@) + " | "@ + spec_sanitize_table(d.severity@) + " | "@
        + spec_tier_name(d.tier) + " | "@ + spec_sanitize_table(d.domain@) + " | "@ + spec_status_name(
        d.parity_status,
    ) + " | "@ + spec_sanitize_table(d.mechanic_id@) + " | `"@ + spec_sanitize_table(d.anchor@) + "` |\n"@
}

pub open spec fn spec_defect_rows(ds: Seq<crate::mechanics::MissingDefect>) -> Seq<char>
    decreases ds.len(),
{
    if ds.len() == 0 {
        Seq::empty()
    } else {
        spec_defect_rows(ds.drop_last()) + spec_defect_row(ds.last())
    }
}

fn push_defect_row(out: &mut Vec<char>, d: &crate::mechanics::MissingDefect)
    ensures
        final(out)@ == old(out)@ + spec_defect_row(*d),
{
    extend_str(out, "| ");
    push_sanitized(out, &d.id);
    extend_str(out, " | ");
    push_sanitized(out, &d.severity);
    extend_str(out, " | ");
    extend_str(out, tier_name(d.tier));
    extend_str(out, " | ");
    push_sanitized(out, &d.domain);
    extend_str(out, " | ");
    extend_str(out, status_name(d.parity_status));
    extend_str(out, " | ");
    push_sanitized(out, &d.mechanic_id);
    extend_str(out, " | `");
    push_sanitized(out, &d.anchor);
    extend_str(out, "` |\n");
}

/// The Markdown rendering of a defect board.
pub open spec fn spec_defect_board_markdown(b: MissingDefectBoard, title: Seq<char>) -> Seq<char> {
    "# "@ + title + "\n\n"@ + "- generated_at_utc: `"@ + b.generated_at_utc@ + "`\n- total: `"@
        + spec_dec(b.total as nat) + "`\n- open: `"@ + spec_dec(b.open as nat) + "`\n\n"@
        + "| id | severity | tier | domain | status | mechanic_id | anchor |\n|---|---|---|---|---|---|---|\n"@
        + spec_defect_rows(b.defects@)
}

pub fn defect_board_to_markdown(board: &MissingDefectBoard, title: &str) -> (r: String)
    ensures
        r@ == spec_defect_board_markdown(*board, title@),
{
    let mut out: Vec<char> = Vec::new();
    extend_str(&mut out, "# ");
    extend_str(&mut out, title);
    extend_str(&mut out, "\n\n");
    extend_str(&mut out, "- generated_at_utc: `");
    push_string(&mut out, &board.generated_at_utc);
    extend_str(&mut out, "`\n- total: `");
    push_count(&mut out, board.total);
    extend_str(&mut out, "`\n- open: `");
    push_count(&mut out, board.open);
    extend_str(&mut out, "`\n\n");
    extend_str(
        &mut out,
        "| id | severity | tier | domain | status | mechanic_id | anchor |\n|---|---|---|---|---|---|---|\n",
    );
    let ghost head = out@;
    let mut k: usize = 0;
    while k < board.defects.len()
        invariant
            k <= board.defects.len(),
            out@ == head + spec_defect_rows(board.defects@.take(k as int)),
        decreases board.defects.len() - k,
    {
        assert(board.defects@.take(k + 1).drop_last() == board.defects@.take(k as int));
        push_defect_row(&mut out, &board.defects[k]);
        k = k + 1;
    }
    assert(board.defects@.take(board.defects.len() as int) == board.defects@);
    string_of(&out)
}

pub open spec fn spec_smoke_row(c: crate::mechanics::SmokeCheck) -> Seq<char> {
    "| "@ + spec_sanitize_table(c.id@) + " | "@ + spec_bool_text(c.passed) + " | "@ + spec_sanitize_table(
        c.details@,
    ) + " |\n"@
}

pub open spec fn spec_smoke_rows(cs: Seq<crate::mechanics::SmokeCheck>) -> Seq<char>
    decreases cs.len(),
{
    if cs.len() == 0 {
        Seq::empty()
    } else {
        spec_smoke_rows(cs.drop_last()) + spec_smoke_row(cs.last())
    }
}

fn push_smoke_row(out: &mut Vec<char>, c: &crate::mechanics::SmokeCheck)
    ensures
        final(out)@ == old(out)@ + spec_smoke_row(*c),
{
    extend_str(out, "| ");
    push_sanitized(out, &c.id);
    extend_str(out, " | ");
    push_bool(out, c.passed);
    extend_str(out, " | ");
    push_sanitized(out, &c.details);
    extend_str(out, " |\n");
}

/// The Markdown rendering of a smoke report.
pub open spec fn spec_smoke_markdown(r: MechanicsSmokeReport, title: Seq<char>) -> Seq<char> {
    "# "@ + title + "\n\n"@ + "- generated_at_utc: `"@ + r.generated_at_utc@ + "`\n- total: `"@
        + spec_dec(r.total as nat) + "`\n- passed: `"@ + spec_dec(r.passed as nat)
        + "`\n- failed: `"@ + spec_dec(r.failed as nat) + "`\n- pass: `"@ + spec_bool_text(r.pass)
        + "`\n\n"@ + "| id | passed | details |\n|---|---|---|\n"@ + spec_smoke_rows(r.checks@)
}

pub fn smoke_to_markdown(report: &MechanicsSmokeReport, title: &str) -> (r: String)
    ensures
        r@ == spec_smoke_markdown(*report, title@),
{
    let mut out: Vec<char> = Vec::new();
    extend_str(&mut out, "# ");
    extend_str(&mut out, title);
    extend_str(&mut out, "\n\n");
    extend_str(&mut out, "- generated_at_utc: `");
    push_string(&mut out, &report.generated_at_utc);
    extend_str(&mut out, "`\n- total: `");
    push_count(&mut out, report.total);
    extend_str(&mut out, "`\n- passed: `");
    push_count(&mut out, report.passed);
    extend_str(&mut out, "`\n- failed: `");
    push_count(&mut out, report.failed);
    extend_str(&mut out, "`\n- pass: `");
    push_bool(&mut out, report.pass);
    extend_str(&mut out, "`\n\n");
    extend_str(&mut out, "| id | passed | details |\n|---|---|---|\n");
    let ghost head = out@;
    let mut k: usize = 0;
    while k < report.checks.len()
        invariant
            k <= report.checks.len(),
            out@ == head + spec_smoke_rows(report.checks@.take(k as int)),
        decreases report.checks.len() - k,
    {
        assert(report.checks@.take(k + 1).drop_last() == report.checks@.take(k as int));
        push_smoke_row(&mut out, &report.checks[k]);
        k = k + 1;
    }
    assert(report.checks@.take(report.checks.len() as int) == report.checks@);
    string_of(&out)
}

// ---------------------------------------------------------------------------
// Mapping YAML
// ---------------------------------------------------------------------------

/// The resolution a parity status calls for.
pub open spec fn spec_resolution(s: ParityStatus) -> Seq<char> {
    match s {
        ParityStatus::Exact | ParityStatus::Equivalent => "implemented"@,
        ParityStatus::Partial => "partial_coverage_needs_branch_completion"@,
        ParityStatus::Missing => "missing_implementation"@,
        ParityStatus::Unknown => "investigate_unmapped_behavior"@,
        ParityStatus::ExcludedNonGameplay => "excluded_non_gameplay_surface"@,
    }
}

pub fn resolution(s: ParityStatus) -> (r: &'static str)
    ensures
        r@ == spec_resolution(s),
{
    match s {
        ParityStatus::Exact | ParityStatus::Equivalent => "implemented",
        ParityStatus::Partial => "partial_coverage_needs_branch_completion",
        ParityStatus::Missing => "missing_implementation",
        ParityStatus::Unknown => "investigate_unmapped_behavior",
        ParityStatus::ExcludedNonGameplay => "excluded_non_gameplay_surface",
    }
}

/// The anchor of the last ledger entry with id `id`, or empty text: a map
/// filled in entry order keeps the last value per id.
pub open spec fn spec_anchor_for(es: Seq<MechanicEntry>, id: Seq<char>) -> Seq<char>
    decreases es.len(),
{
    if es.len() == 0 {
        Seq::empty()
    } else if es.last().id@ == id {
        es.last().legacy_anchor@
    } else {
        spec_anchor_for(es.drop_last(), id)
    }
}

fn anchor_for(es: &Vec<MechanicEntry>, id: &String) -> (r: String)
    ensures
        r@ == spec_anchor_for(es@, id@),
{
    let mut i: usize = es.len();
    assert(es@.take(es.len() as int) == es@);
    while i > 0
        invariant
            i <= es.len(),
            spec_anchor_for(es@, id@) == spec_anchor_for(es@.take(i as int), id@),
        decreases i,
    {
        assert(es@.take(i as int).drop_last() == es@.take(i - 1));
        if es[i - 1].id == *id {
            return es[i - 1].legacy_anchor.clone();
        }
        i = i - 1;
    }
    String::new()
}

pub open spec fn spec_mapping_row(r: MechanicParityRow, es: Seq<MechanicEntry>) -> Seq<char> {
    "  - mechanic_id: '"@ + spec_escape_yaml(r.mechanic_id@) + "'\n"@ + "    tier: '"@
        + spec_lowercase(spec_tier_name(r.tier)) + "'\n"@ + "    domain: '"@ + spec_escape_yaml(
        r.domain@,
    ) + "'\n"@ + "    legacy_anchor: '"@ + spec_escape_yaml(spec_anchor_for(es, r.mechanic_id@))
        + "'\n"@ + "    parity_status: '"@ + spec_lowercase(spec_status_name(r.parity_status))
        + "'\n"@ + "    resolution: '"@ + spec_resolution(r.parity_status) + "'\n"@
}

pub open spec fn spec_mapping_rows(rows: Seq<MechanicParityRow>, es: Seq<MechanicEntry>) -> Seq<char>
    decreases rows.len(),
{
    if rows.len() == 0 {
        Seq::empty()
    } else {
        spec_mapping_rows(rows.drop_last(), es) + spec_mapping_row(rows.last(), es)
    }
}

/// The mechanics parity mapping document, stamped `generated_at_utc`.
pub open spec fn spec_mapping_yaml(rows: Seq<MechanicParityRow>, es: Seq<MechanicEntry>, generated_at_utc: Seq<char>) -> Seq<char> {
    "version: 1\n"@ + "generated_at_utc: '"@ + generated_at_utc + "'\n"@ + "rows:\n"@
        + spec_mapping_rows(rows, es)
}

fn push_lower(out: &mut Vec<char>, s: &str)
    ensures
        final(out)@ == old(out)@ + spec_lowercase(s@),
{
    let v = chars_of(s);
    extend(out, &lowercase(&v));
}

fn push_mapping_row(out: &mut Vec<char>, row: &MechanicParityRow, es: &Vec<MechanicEntry>)
    ensures
        final(out)@ == old(out)@ + spec_mapping_row(*row, es@),
{
    extend_str(out, "  - mechanic_id: '");
    extend_str(out, escape_yaml(row.mechanic_id.as_str()).as_str());
    extend_str(out, "'\n");
    extend_str(out, "    tier: '");
    push_lower(out, tier_name(row.tier));
    extend_str(out, "'\n");
    extend_str(out, "    domain: '");
    extend_str(out, escape_yaml(row.domain.as_str()).as_str());
    extend_str(out, "'\n");
    extend_str(out, "    legacy_anchor: '");
    let anchor = anchor_for(es, &row.mechanic_id);
    extend_str(out, escape_yaml(anchor.as_str()).as_str());
    extend_str(out, "'\n");
    extend_str(out, "    parity_status: '");
    push_lower(out, status_name(row.parity_status));
    extend_str(out, "'\n");
    extend_str(out, "    resolution: '");
    extend_str(out, resolution(row.parity_status));
    extend_str(out, "'\n");
}

/// The body of the mechanics parity mapping document for `rows`, taking
/// each row's legacy anchor from the ledger `legacy`.
pub fn mapping_yaml(rows: &Vec<MechanicParityRow>, legacy: &MechanicsLedger, generated_at_utc: &str) -> (r: String)
    ensures
        r@ == spec_mapping_yaml(rows@, legacy.entries@, generated_at_utc@),
{
    let mut out: Vec<char> = Vec::new();
    extend_str(&mut out, "version: 1\n");
    extend_str(&mut out, "generated_at_utc: '");
    extend_str(&mut out, generated_at_utc);
    extend_str(&mut out, "'\n");
    extend_str(&mut out, "rows:\n");
    let ghost head = out@;
    let mut k: usize = 0;
    while k < rows.len()
        invariant
            k <= rows.len(),
            out@ == head + spec_mapping_rows(rows@.take(k as int), legacy.entries@),
        decreases rows.len() - k,
    {
        assert(rows@.take(k + 1).drop_last() == rows@.take(k as int));
        push_mapping_row(&mut out, &rows[k], &legacy.entries);
        k = k + 1;
    }
    assert(rows@.take(rows.len() as int) == rows@);
    string_of(&out)
}

/// The mechanics parity mapping document for `rows`, stamped with the
/// current time. The caller writes the text to `MAPPING_PATH`.
pub fn write_mapping_yaml(rows: &Vec<MechanicParityRow>, legacy: &MechanicsLedger) -> (r: String)
    ensures
        exists|secs: u64| r@ == spec_mapping_yaml(rows@, legacy.entries@, spec_unix_stamp(secs as nat)),
{
    let stamp = now_utc_unix();
    mapping_yaml(rows, legacy, stamp.as_str())
}

} // verus!
