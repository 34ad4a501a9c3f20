//! The Markdown reports of the parity probes: tables of checks, check
//! lists with a timeline, and the tail of a log.
use vstd::prelude::*;

use crate::recovery::{check_views, CheckView};
use crate::refresh::MatrixCheck;
use crate::replay::GridPosition;
use crate::text::{chars_of, extend, extend_str, join, push_dec, push_int, replace_char_str, spec_dec, spec_int, spec_join, spec_replace_char, string_of};

verus! {

broadcast use crate::views::group_view_lemmas;

pub open spec fn texts_view(v: Seq<String>) -> Seq<Seq<char>> {
    Seq::new(v.len(), |i: int| v[i]@)
}

pub open spec fn spec_pass_text(b: bool) -> Seq<char> {
    if b {
        "PASS"@
    } else {
        "FAIL"@
    }
}

fn push_line(lines: &mut Vec<Vec<char>>, l: Vec<char>)
    ensures
        final(lines).deep_view() == old(lines).deep_view().push(l@),
{
    let ghost before = lines.deep_view();
    lines.push(l);
    assert(lines.deep_view() =~= before.push(l@));
}

fn push_pass(out: &mut Vec<char>, b: bool)
    ensures
        final(out)@ == old(out)@ + spec_pass_text(b),
{
    if b {
        extend_str(out, "PASS");
    } else {
        extend_str(out, "FAIL");
    }
}

fn counted(prefix: &str, n: usize) -> (r: Vec<char>)
    ensures
        r@ == prefix@ + spec_dec(n as nat),
{
    let mut l = chars_of(prefix);
    push_dec(&mut l, n as u64);
    l
}

// ---------------------------------------------------------------------------
// Tables of checks
// ---------------------------------------------------------------------------

/// A table of checks with its totals.
#[derive(Debug, Clone)]
pub struct CheckTable {
    pub total: usize,
    pub passed: usize,
    pub failed: usize,
    pub pass: bool,
    pub checks: Vec<MatrixCheck>,
}

pub open spec fn spec_views_passed(cs: Seq<CheckView>) -> nat
    decreases cs.len(),
{
    if cs.len() == 0 {
        0
    } else {
        spec_views_passed(cs.drop_last()) + if cs.last().passed {
            1nat
        } else {
            0nat
        }
    }
}

/// `t` holds the checks, counts them and those that passed, and passes
/// when none failed.
pub open spec fn is_table_of(t: CheckTable, cs: Seq<CheckView>) -> bool {
    &&& check_views(t.checks@) == cs
    &&& t.total == cs.len()
    &&& t.passed == spec_views_passed(cs)
    &&& t.failed == t.total - t.passed
    &&& t.pass == (t.failed == 0)
}

pub fn check_table(checks: Vec<MatrixCheck>) -> (r: CheckTable)
    ensures
        is_table_of(r, check_views(checks@)),
{
    let ghost cv = check_views(checks@);
    let mut passed: usize = 0;
    let mut i: usize = 0;
    while i < checks.len()
        invariant
            i <= checks.len(),
            cv == check_views(checks@),
            passed == spec_views_passed(cv.take(i as int)),
            passed <= i,
        decreases checks.len() - i,
    {
        assert(cv.take(i + 1).drop_last() =~= cv.take(i as int));
        if checks[i].passed {
            passed = passed + 1;
        }
        i = i + 1;
    }
    assert(cv.take(checks.len() as int) =~= cv);
    let total = checks.len();
    CheckTable { total, passed, failed: total - passed, pass: passed == total, checks }
}

/// A table row: `| label | status | details |`, with `|` escaped in the
/// details.
pub open spec fn spec_table_row(label: Seq<char>, passed: bool, details: Seq<char>) -> Seq<char> {
    "| "@ + label + " | "@ + spec_pass_text(passed) + " | "@ + spec_replace_char(details, '|', "\\|"@) + " |"@
}

/// The lines of a table report: a title, the totals, then one row per
/// check, labelled by `labels`.
pub open spec fn spec_table_lines(title: Seq<char>, total: nat, passed: nat, failed: nat, pass: bool, labels: Seq<Seq<char>>, cs: Seq<CheckView>) -> Seq<Seq<char>> {
    seq![
        "# "@ + title,
        Seq::empty(),
        "- Total checks: "@ + spec_dec(total),
        "- Passed: "@ + spec_dec(passed),
        "- Failed: "@ + spec_dec(failed),
        "- Status: "@ + spec_pass_text(pass),
        Seq::empty(),
        "| Check | Status | Details |"@,
        "|---|---|---|"@,
    ] + Seq::new(cs.len(), |i: int| spec_table_row(labels[i], cs[i].passed, cs[i].details)) + seq![Seq::empty()]
}

fn table_markdown(title: &str, total: usize, passed: usize, failed: usize, pass: bool, labels: &Vec<String>, checks: &Vec<MatrixCheck>) -> (md: String)
    requires
        labels.len() == checks.len(),
    ensures
        md@ == spec_join(
            spec_table_lines(title@, total as nat, passed as nat, failed as nat, pass, texts_view(labels@), check_views(checks@)),
            "\n"@,
        ),
{
    let ghost cv = check_views(checks@);
    let ghost lv = texts_view(labels@);
    let mut lines: Vec<Vec<char>> = Vec::new();
    let mut t = chars_of("# ");
    extend_str(&mut t, title);
    push_line(&mut lines, t);
    push_line(&mut lines, Vec::new());
    push_line(&mut lines, counted("- Total checks: ", total));
    push_line(&mut lines, counted("- Passed: ", passed));
    push_line(&mut lines, counted("- Failed: ", failed));
    let mut l = chars_of("- Status: ");
    push_pass(&mut l, pass);
    push_line(&mut lines, l);
    push_line(&mut lines, Vec::new());
    push_line(&mut lines, chars_of("| Check | Status | Details |"));
    push_line(&mut lines, chars_of("|---|---|---|"));
    let ghost head = lines.deep_view();
    let ghost rows = Seq::new(cv.len(), |i: int| spec_table_row(lv[i], cv[i].passed, cv[i].details));
    let mut i: usize = 0;
    while i < checks.len()
        invariant
            i <= checks.len(),
            labels.len() == checks.len(),
            cv == check_views(checks@),
            lv == texts_view(labels@),
            rows == Seq::new(cv.len(), |k: int| spec_table_row(lv[k], cv[k].passed, cv[k].details)),
            lines.deep_view() == head + rows.take(i as int),
        decreases checks.len() - i,
    {
        let c = &checks[i];
        let mut l = chars_of("| ");
        extend_str(&mut l, labels[i].as_str());
        extend_str(&mut l, " | ");
        push_pass(&mut l, c.passed);
        extend_str(&mut l, " | ");
        let esc = replace_char_str(&chars_of(c.details.as_str()), '|', "\\|");
        extend(&mut l, &esc);
        extend_str(&mut l, " |");
        push_line(&mut lines, l);
        assert(rows.take(i + 1) =~= rows.take(i as int).push(rows[i as int]));
        i = i + 1;
    }
    assert(rows.take(checks.len() as int) =~= rows);
    push_line(&mut lines, Vec::new());
    assert(lines.deep_view() =~= spec_table_lines(title@, total as nat, passed as nat, failed as nat, pass, lv, cv));
    let sep = chars_of("\n");
    string_of(&join(&lines, &sep))
}

pub open spec fn check_ids(cs: Seq<CheckView>) -> Seq<Seq<char>> {
    Seq::new(cs.len(), |i: int| cs[i].id)
}

/// The Markdown of a table of checks under a title, each row labelled by
/// its check's id.
pub fn check_table_markdown(title: &str, t: &CheckTable) -> (md: String)
    ensures
        md@ == spec_join(
            spec_table_lines(title@, t.total as nat, t.passed as nat, t.failed as nat, t.pass, check_ids(check_views(t.checks@)), check_views(t.checks@)),
            "\n"@,
        ),
{
    let mut labels: Vec<String> = Vec::new();
    let ghost cv = check_views(t.checks@);
    let mut i: usize = 0;
    while i < t.checks.len()
        invariant
            i <= t.checks.len(),
            cv == check_views(t.checks@),
            texts_view(labels@) == check_ids(cv).take(i as int),
        decreases t.checks.len() - i,
    {
        let ghost before = texts_view(labels@);
        labels.push(t.checks[i].id.clone());
        assert(texts_view(labels@) =~= before.push(cv[i as int].id));
        assert(check_ids(cv).take(i + 1) =~= check_ids(cv).take(i as int).push(cv[i as int].id));
        i = i + 1;
    }
    assert(check_ids(cv).take(t.checks.len() as int) =~= check_ids(cv));
    table_markdown(title, t.total, t.passed, t.failed, t.pass, &labels, &t.checks)
}

/// The Markdown of a table of checks under a title, each row labelled by
/// the given label.
pub fn labelled_table_markdown(title: &str, t: &CheckTable, labels: &Vec<String>) -> (md: String)
    requires
        labels.len() == t.checks.len(),
    ensures
        md@ == spec_join(
            spec_table_lines(title@, t.total as nat, t.passed as nat, t.failed as nat, t.pass, texts_view(labels@), check_views(t.checks@)),
            "\n"@,
        ),
{
    table_markdown(title, t.total, t.passed, t.failed, t.pass, labels, &t.checks)
}

// ---------------------------------------------------------------------------
// Check lists
// ---------------------------------------------------------------------------

/// A check as a list item: `- id: status (details)`.
pub open spec fn spec_check_item(c: CheckView) -> Seq<char> {
    "- "@ + c.id + ": "@ + spec_pass_text(c.passed) + " ("@ + c.details + ")"@
}

pub open spec fn spec_check_items(cs: Seq<CheckView>) -> Seq<Seq<char>> {
    Seq::new(cs.len(), |i: int| spec_check_item(cs[i]))
}

fn push_check_items(lines: &mut Vec<Vec<char>>, checks: &Vec<MatrixCheck>)
    ensures
        final(lines).deep_view() == old(lines).deep_view() + spec_check_items(check_views(checks@)),
{
    let ghost head = lines.deep_view();
    let ghost items = spec_check_items(check_views(checks@));
    let mut i: usize = 0;
    while i < checks.len()
        invariant
            i <= checks.len(),
            items == spec_check_items(check_views(checks@)),
            lines.deep_view() == head + items.take(i as int),
        decreases checks.len() - i,
    {
        let c = &checks[i];
        let mut l = chars_of("- ");
        extend_str(&mut l, c.id.as_str());
        extend_str(&mut l, ": ");
        push_pass(&mut l, c.passed);
        extend_str(&mut l, " (");
        extend_str(&mut l, c.details.as_str());
        extend_str(&mut l, ")");
        push_line(lines, l);
        assert(items.take(i + 1) =~= items.take(i as int).push(items[i as int]));
        i = i + 1;
    }
    assert(items.take(checks.len() as int) =~= items);
}

fn push_texts(lines: &mut Vec<Vec<char>>, v: &Vec<String>)
    ensures
        final(lines).deep_view() == old(lines).deep_view() + texts_view(v@),
{
    let ghost head = lines.deep_view();
    let mut i: usize = 0;
    while i < v.len()
        invariant
            i <= v.len(),
            lines.deep_view() == head + texts_view(v@).take(i as int),
        decreases v.len() - i,
    {
        push_line(lines, chars_of(v[i].as_str()));
        assert(texts_view(v@).take(i + 1) =~= texts_view(v@).take(i as int).push(v@[i as int]@));
        i = i + 1;
    }
    assert(texts_view(v@).take(v.len() as int) =~= texts_view(v@));
}

/// The map and spawn sources of a bootstrap.
#[derive(Debug, Clone)]
pub struct BootstrapSources {
    pub source: String,
    pub spawn: String,
}

/// A smoke report with a list of checks and the tail of its log.
#[derive(Debug, Clone)]
pub struct TimelineSmoke {
    pub generated_at_utc: String,
    pub pass: bool,
    /// The bootstrap's map and spawn sources, where the report names them.
    pub bootstrap: Option<BootstrapSources>,
    pub checks: Vec<MatrixCheck>,
    pub timeline_tail: Vec<String>,
}

pub open spec fn spec_timeline_lines(title: Seq<char>, r: TimelineSmoke) -> Seq<Seq<char>> {
    seq!["# "@ + title, Seq::empty(), "- Generated: "@ + r.generated_at_utc@, "- Status: "@ + spec_pass_text(r.pass)]
        + (match r.bootstrap {
        Some(b) => seq!["- Bootstrap: source=`"@ + b.source@ + "` spawn=`"@ + b.spawn@ + "`"@],
        None => Seq::empty(),
    }) + seq![Seq::empty(), "## Checks"@, Seq::empty()] + spec_check_items(check_views(r.checks@)) + seq![
        Seq::empty(),
        "## Timeline Tail"@,
        Seq::empty(),
        "```text"@,
    ] + texts_view(r.timeline_tail@) + seq!["```"@, Seq::empty()]
}

/// The Markdown of a smoke report with a timeline, under a title.
pub fn timeline_markdown(title: &str, r: &TimelineSmoke) -> (md: String)
    ensures
        md@ == spec_join(spec_timeline_lines(title@, *r), "\n"@),
{
    let mut lines: Vec<Vec<char>> = Vec::new();
    let mut t = chars_of("# ");
    extend_str(&mut t, title);
    push_line(&mut lines, t);
    push_line(&mut lines, Vec::new());
    let mut g = chars_of("- Generated: ");
    extend_str(&mut g, r.generated_at_utc.as_str());
    push_line(&mut lines, g);
    let mut st = chars_of("- Status: ");
    push_pass(&mut st, r.pass);
    push_line(&mut lines, st);
    match &r.bootstrap {
        Some(src) => {
            let mut b = chars_of("- Bootstrap: source=`");
            extend_str(&mut b, src.source.as_str());
            extend_str(&mut b, "` spawn=`");
            extend_str(&mut b, src.spawn.as_str());
            extend_str(&mut b, "`");
            push_line(&mut lines, b);
        },
        None => {},
    }
    push_line(&mut lines, Vec::new());
    push_line(&mut lines, chars_of("## Checks"));
    push_line(&mut lines, Vec::new());
    push_check_items(&mut lines, &r.checks);
    push_line(&mut lines, Vec::new());
    push_line(&mut lines, chars_of("## Timeline Tail"));
    push_line(&mut lines, Vec::new());
    push_line(&mut lines, chars_of("```text"));
    push_texts(&mut lines, &r.timeline_tail);
    push_line(&mut lines, chars_of("```"));
    push_line(&mut lines, Vec::new());
    assert(lines.deep_view() =~= spec_timeline_lines(title@, *r));
    let sep = chars_of("\n");
    string_of(&join(&lines, &sep))
}

/// The last `n` lines of a log, in order.
pub open spec fn spec_log_tail(log: Seq<Seq<char>>, n: nat) -> Seq<Seq<char>> {
    if log.len() <= n {
        log
    } else {
        log.skip(log.len() - n)
    }
}

pub fn log_tail(log: &Vec<String>, n: usize) -> (r: Vec<String>)
    ensures
        texts_view(r@) == spec_log_tail(texts_view(log@), n as nat),
{
    let start = if log.len() <= n { 0 } else { log.len() - n };
    let ghost lv = texts_view(log@);
    let mut out: Vec<String> = Vec::new();
    let mut i: usize = start;
    while i < log.len()
        invariant
            start <= i <= log.len(),
            start == (if log.len() <= n { 0 } else { log.len() - n }),
            lv == texts_view(log@),
            texts_view(out@) == lv.subrange(start as int, i as int),
        decreases log.len() - i,
    {
        let ghost before = texts_view(out@);
        out.push(log[i].clone());
        assert(texts_view(out@) =~= before.push(lv[i as int]));
        assert(lv.subrange(start as int, i + 1) =~= lv.subrange(start as int, i as int).push(lv[i as int]));
        i = i + 1;
    }
    assert(lv.subrange(start as int, log.len() as int) =~= spec_log_tail(lv, n as nat));
    out
}

// ---------------------------------------------------------------------------
// The startup visual report
// ---------------------------------------------------------------------------

#[derive(Debug, Clone)]
pub struct StartupVisualReport {
    pub generated_at_utc: String,
    pub pass: bool,
    pub player_position: GridPosition,
    pub map_window: Vec<String>,
    pub checks: Vec<MatrixCheck>,
}

pub open spec fn spec_visual_lines(r: StartupVisualReport) -> Seq<Seq<char>> {
    seq![
        "# Recovery Rampart Startup Visual"@,
        Seq::empty(),
        "- Generated: "@ + r.generated_at_utc@,
        "- Status: "@ + spec_pass_text(r.pass),
        "- Player position: ("@ + spec_int(r.player_position.x as int) + ", "@ + spec_int(r.player_position.y as int)
            + ")"@,
        Seq::empty(),
        "## Map Window"@,
        Seq::empty(),
        "```text"@,
    ] + texts_view(r.map_window@) + seq!["```"@, Seq::empty(), "## Checks"@, Seq::empty()] + spec_check_items(
        check_views(r.checks@),
    ) + seq![Seq::empty()]
}

pub fn startup_visual_markdown(r: &StartupVisualReport) -> (md: String)
    ensures
        md@ == spec_join(spec_visual_lines(*r), "\n"@),
{
    let mut lines: Vec<Vec<char>> = Vec::new();
    push_line(&mut lines, chars_of("# Recovery Rampart Startup Visual"));
    push_line(&mut lines, Vec::new());
    let mut g = chars_of("- Generated: ");
    extend_str(&mut g, r.generated_at_utc.as_str());
    push_line(&mut lines, g);
    let mut st = chars_of("- Status: ");
    push_pass(&mut st, r.pass);
    push_line(&mut lines, st);
    let mut p = chars_of("- Player position: (");
    push_int(&mut p, r.player_position.x as i64);
    extend_str(&mut p, ", ");
    push_int(&mut p, r.player_position.y as i64);
    extend_str(&mut p, ")");
    push_line(&mut lines, p);
    push_line(&mut lines, Vec::new());
    push_line(&mut lines, chars_of("## Map Window"));
    push_line(&mut lines, Vec::new());
    push_line(&mut lines, chars_of("```text"));
    push_texts(&mut lines, &r.map_window);
    push_line(&mut lines, chars_of("```"));
    push_line(&mut lines, Vec::new());
    push_line(&mut lines, chars_of("## Checks"));
    push_line(&mut lines, Vec::new());
    push_check_items(&mut lines, &r.checks);
    push_line(&mut lines, Vec::new());
    assert(lines.deep_view() =~= spec_visual_lines(*r));
    let sep = chars_of("\n");
    string_of(&join(&lines, &sep))
}

// ---------------------------------------------------------------------------
// Plain check lists
// ---------------------------------------------------------------------------

/// The Markdown of the unimplemented mechanics smoke.
pub open spec fn spec_mechanics_smoke_lines(pass: bool, cs: Seq<CheckView>) -> Seq<Seq<char>> {
    seq!["# Unimplemented Mechanics Smoke"@, Seq::empty(), "- status: "@ + spec_pass_text(pass), Seq::empty()]
        + spec_check_items(cs) + seq![Seq::empty()]
}

pub fn mechanics_smoke_markdown(pass: bool, checks: &Vec<MatrixCheck>) -> (md: String)
    ensures
        md@ == spec_join(spec_mechanics_smoke_lines(pass, check_views(checks@)), "\n"@),
{
    let mut lines: Vec<Vec<char>> = Vec::new();
    push_line(&mut lines, chars_of("# Unimplemented Mechanics Smoke"));
    push_line(&mut lines, Vec::new());
    let mut st = chars_of("- status: ");
    push_pass(&mut st, pass);
    push_line(&mut lines, st);
    push_line(&mut lines, Vec::new());
    push_check_items(&mut lines, checks);
    push_line(&mut lines, Vec::new());
    assert(lines.deep_view() =~= spec_mechanics_smoke_lines(pass, check_views(checks@)));
    let sep = chars_of("\n");
    string_of(&join(&lines, &sep))
}

/// Whether every check passed.
pub open spec fn spec_all_passed(cs: Seq<CheckView>) -> bool {
    forall|i: int| 0 <= i < cs.len() ==> #[trigger] cs[i].passed
}

pub fn all_passed(checks: &Vec<MatrixCheck>) -> (r: bool)
    ensures
        r == spec_all_passed(check_views(checks@)),
{
    let ghost cv = check_views(checks@);
    let mut i: usize = 0;
    while i < checks.len()
        invariant
            i <= checks.len(),
            cv == check_views(checks@),
            forall|k: int| 0 <= k < i ==> #[trigger] cv[k].passed,
        decreases checks.len() - i,
    {
        if !checks[i].passed {
            assert(!cv[i as int].passed);
            return false;
        }
        i = i + 1;
    }
    true
}

} // verus!
