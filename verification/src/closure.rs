//! The guild parity closure runner: the checks it runs, what each run
//! leaves, and the board of defects that failed runs and failing reports
//! open.
use vstd::prelude::*;

use crate::clock::{now_utc_unix, spec_unix_stamp};
use crate::fields::{bool_field, spec_bool_field, spec_count_field, usize_field, JsonFields};
use crate::text::{
    chars_eq_str, chars_of, clone_chars, extend, extend_str, join, lines, push_dec, push_int,
    replace_char_str, spec_dec, spec_int, push_dec_wide, spec_join, spec_lines, spec_replace_char, spec_trim,
    string_of, trim,
};

verus! {

broadcast use crate::views::group_view_lemmas;

/// The command line of a cargo invocation: `cargo` and the arguments,
/// separated by spaces.
pub open spec fn spec_format_command(args: Seq<Seq<char>>) -> Seq<char> {
    spec_join(seq!["cargo"@] + args, " "@)
}

pub open spec fn texts_of(v: Seq<String>) -> Seq<Seq<char>> {
    Seq::new(v.len(), |i: int| v[i]@)
}

pub fn format_command(args: &Vec<String>) -> (r: String)
    ensures
        r@ == spec_format_command(texts_of(args@)),
{
    let mut parts: Vec<Vec<char>> = Vec::new();
    parts.push(chars_of("cargo"));
    let ghost a = texts_of(args@);
    let mut i: usize = 0;
    while i < args.len()
        invariant
            i <= args.len(),
            a == texts_of(args@),
            parts.deep_view() == seq!["cargo"@] + a.take(i as int),
        decreases args.len() - i,
    {
        let ghost before = parts.deep_view();
        parts.push(chars_of(args[i].as_str()));
        assert(parts.deep_view() =~= before.push(a[i as int]));
        assert(seq!["cargo"@] + a.take(i + 1) =~= (seq!["cargo"@] + a.take(i as int)).push(a[i as int]));
        i = i + 1;
    }
    assert(a.take(args.len() as int) =~= a);
    let sep = chars_of(" ");
    string_of(&join(&parts, &sep))
}

/// The last `max_lines` lines of a text joined by line breaks, or the
/// whole text trimmed when it has no more lines than that.
pub open spec fn spec_trim_tail(text: Seq<char>, max_lines: nat) -> Seq<char> {
    let ls = spec_lines(text);
    if ls.len() <= max_lines {
        spec_trim(text)
    } else {
        spec_join(ls.skip(ls.len() - max_lines), "\n"@)
    }
}

pub fn trim_tail(text: &str, max_lines: usize) -> (r: String)
    ensures
        r@ == spec_trim_tail(text@, max_lines as nat),
{
    let t = chars_of(text);
    let ls = lines(&t);
    if ls.len() <= max_lines {
        return string_of(&trim(&t));
    }
    let start = ls.len() - max_lines;
    let ghost lv = ls.deep_view();
    let mut tail: Vec<Vec<char>> = Vec::new();
    let mut i: usize = start;
    while i < ls.len()
        invariant
            start <= i <= ls.len(),
            lv == ls.deep_view(),
            tail.deep_view() == lv.subrange(start as int, i as int),
        decreases ls.len() - i,
    {
        let ghost before = tail.deep_view();
        tail.push(clone_chars(&ls[i]));
        assert(lv[i as int] == ls[i as int]@);
        assert(tail.deep_view() =~= before.push(lv[i as int]));
        assert(lv.subrange(start as int, i + 1) =~= lv.subrange(start as int, i as int).push(lv[i as int]));
        i = i + 1;
    }
    assert(lv.subrange(start as int, ls.len() as int) =~= lv.skip(start as int));
    let sep = chars_of("\n");
    string_of(&join(&tail, &sep))
}

// ---------------------------------------------------------------------------
// Checks and their runs
// ---------------------------------------------------------------------------

/// The tools the closure runner runs, each as `cargo run -p omega-tools
/// --bin <tool>`, in order.
pub open spec fn spec_closure_check_ids() -> Seq<Seq<char>> {
    seq![
        "legacy_guild_site_contract"@,
        "legacy_site_branch_extract"@,
        "rust_site_branch_extract"@,
        "site_branch_diff"@,
        "service_branch_oracle"@,
        "classic_site_service_parity"@,
        "service_branch_blackbox_smoke"@,
        "guild_live_check"@,
        "parity_certify"@,
    ]
}

/// The arguments that run a tool.
pub open spec fn spec_check_args(id: Seq<char>) -> Seq<Seq<char>> {
    seq!["run"@, "-p"@, "omega-tools"@, "--bin"@, id]
}

/// A check: its id and the arguments of its cargo run.
#[derive(Debug, Clone)]
pub struct CheckSpec {
    pub id: String,
    pub args: Vec<String>,
}

fn text(s: &str) -> (r: String)
    ensures
        r@ == s@,
{
    string_of(&chars_of(s))
}

fn check_spec(id: &str) -> (r: CheckSpec)
    ensures
        r.id@ == id@,
        texts_of(r.args@) == spec_check_args(id@),
{
    let args = vec![text("run"), text("-p"), text("omega-tools"), text("--bin"), text(id)];
    assert(texts_of(args@) =~= spec_check_args(id@));
    CheckSpec { id: text(id), args }
}

/// The checks of the closure runner, in order.
pub fn closure_checks() -> (r: Vec<CheckSpec>)
    ensures
        r.len() == spec_closure_check_ids().len(),
        forall|i: int| 0 <= i < r.len() ==> (#[trigger] r@[i]).id@ == spec_closure_check_ids()[i]
            && texts_of(r@[i].args@) == spec_check_args(spec_closure_check_ids()[i]),
{
    let ids = vec![
        "legacy_guild_site_contract",
        "legacy_site_branch_extract",
        "rust_site_branch_extract",
        "site_branch_diff",
        "service_branch_oracle",
        "classic_site_service_parity",
        "service_branch_blackbox_smoke",
        "guild_live_check",
        "parity_certify",
    ];
    let ghost target = spec_closure_check_ids();
    assert(Seq::new(ids@.len(), |i: int| ids@[i]@) =~= target);
    let mut out: Vec<CheckSpec> = Vec::new();
    let mut i: usize = 0;
    while i < ids.len()
        invariant
            i <= ids.len(),
            ids@.len() == target.len(),
            forall|k: int| 0 <= k < ids@.len() ==> ids@[k]@ == target[k],
            out.len() == i,
            forall|k: int| 0 <= k < i ==> (#[trigger] out@[k]).id@ == target[k]
                && texts_of(out@[k].args@) == spec_check_args(target[k]),
        decreases ids.len() - i,
    {
        out.push(check_spec(ids[i]));
        i = i + 1;
    }
    out
}

/// What one run of a check left.
#[derive(Debug, Clone)]
pub struct CheckRun {
    pub id: String,
    pub command: String,
    pub pass: bool,
    pub exit_code: i32,
    pub duration_ms: u128,
    pub stdout_tail: String,
    pub stderr_tail: String,
}

/// Lines of output kept of each stream.
pub const CHECK_TAIL_LINES: usize = 10;

/// The run of a check, given whether it succeeded, its exit code (`None`
/// when it was ended by a signal, recorded as -1), its duration and its
/// decoded output.
pub fn check_run(
    check: &CheckSpec,
    success: bool,
    exit_code: Option<i32>,
    duration_ms: u128,
    stdout: &str,
    stderr: &str,
) -> (r: CheckRun)
    ensures
        r.id@ == check.id@,
        r.command@ == spec_format_command(texts_of(check.args@)),
        r.pass == success,
        r.exit_code == match exit_code {
            Some(c) => c,
            None => -1i32,
        },
        r.duration_ms == duration_ms,
        r.stdout_tail@ == spec_trim_tail(stdout@, 10),
        r.stderr_tail@ == spec_trim_tail(stderr@, 10),
{
    let code = match exit_code {
        Some(c) => c,
        None => -1i32,
    };
    CheckRun {
        id: check.id.clone(),
        command: format_command(&check.args),
        pass: success,
        exit_code: code,
        duration_ms,
        stdout_tail: trim_tail(stdout, CHECK_TAIL_LINES),
        stderr_tail: trim_tail(stderr, CHECK_TAIL_LINES),
    }
}

// ---------------------------------------------------------------------------
// Defects
// ---------------------------------------------------------------------------

#[derive(Debug, Clone)]
pub struct DefectItem {
    pub id: String,
    pub severity: String,
    pub source: String,
    pub details: String,
    pub status: String,
}

pub struct DefectView {
    pub id: Seq<char>,
    pub severity: Seq<char>,
    pub source: Seq<char>,
    pub details: Seq<char>,
    pub status: Seq<char>,
}

pub open spec fn defect_view(d: DefectItem) -> DefectView {
    DefectView { id: d.id@, severity: d.severity@, source: d.source@, details: d.details@, status: d.status@ }
}

pub open spec fn defect_views(v: Seq<DefectItem>) -> Seq<DefectView> {
    Seq::new(v.len(), |i: int| defect_view(v[i]))
}

/// An open defect of priority P0.
pub open spec fn spec_open_defect(id: Seq<char>, source: Seq<char>, details: Seq<char>) -> DefectView {
    DefectView { id, severity: "P0"@, source, details, status: "OPEN"@ }
}

fn open_defect(id: Vec<char>, source: &str, details: Vec<char>) -> (r: DefectItem)
    ensures
        defect_view(r) == spec_open_defect(id@, source@, details@),
{
    DefectItem {
        id: string_of(&id),
        severity: text("P0"),
        source: text(source),
        details: string_of(&details),
        status: text("OPEN"),
    }
}

fn push_defect(out: &mut Vec<DefectItem>, d: DefectItem)
    ensures
        defect_views(final(out)@) == defect_views(old(out)@).push(defect_view(d)),
{
    let ghost before = defect_views(out@);
    out.push(d);
    assert(defect_views(out@) =~= before.push(defect_view(d)));
}

pub struct RunView {
    pub id: Seq<char>,
    pub command: Seq<char>,
    pub pass: bool,
}

pub open spec fn run_views(v: Seq<CheckRun>) -> Seq<RunView> {
    Seq::new(v.len(), |i: int| RunView { id: v[i].id@, command: v[i].command@, pass: v[i].pass })
}

/// The defects of the failed runs, in order.
pub open spec fn spec_run_defects(runs: Seq<RunView>) -> Seq<DefectView>
    decreases runs.len(),
{
    if runs.len() == 0 {
        Seq::empty()
    } else if !runs.last().pass {
        spec_run_defects(runs.drop_last()).push(
            spec_open_defect("run-"@ + runs.last().id, runs.last().id, "command failed: "@ + runs.last().command),
        )
    } else {
        spec_run_defects(runs.drop_last())
    }
}

/// A service row of the site branch diff, as the closure runner reads it.
#[derive(Debug, Clone)]
pub struct DiffOutcome {
    pub service: String,
    pub pass: bool,
    pub details: String,
}

pub struct DiffOutcomeView {
    pub service: Seq<char>,
    pub pass: bool,
    pub details: Seq<char>,
}

pub open spec fn diff_outcome_views(v: Seq<DiffOutcome>) -> Seq<DiffOutcomeView> {
    Seq::new(v.len(), |i: int| DiffOutcomeView { service: v[i].service@, pass: v[i].pass, details: v[i].details@ })
}

/// The defects of the failing services of the site branch diff, in order.
pub open spec fn spec_diff_defects(rows: Seq<DiffOutcomeView>) -> Seq<DefectView>
    decreases rows.len(),
{
    if rows.len() == 0 {
        Seq::empty()
    } else if !rows.last().pass {
        spec_diff_defects(rows.drop_last()).push(
            spec_open_defect("branch-"@ + rows.last().service, "site_branch_diff"@, rows.last().details),
        )
    } else {
        spec_diff_defects(rows.drop_last())
    }
}

/// `failed=<n> of total=<n>` of a report.
pub open spec fn spec_failed_of_total(f: JsonFields) -> Seq<char> {
    "failed="@ + spec_dec(spec_count_field(f, "failed"@)) + " of total="@ + spec_dec(spec_count_field(f, "total"@))
}

/// The defect of a report that must exist and pass: none when it passes,
/// one saying so when it fails, and one naming the missing file when it is
/// absent and required.
pub open spec fn spec_report_defect(
    report: Option<JsonFields>,
    id: Seq<char>,
    source: Seq<char>,
    path: Seq<char>,
    required: bool,
) -> Seq<DefectView> {
    match report {
        Some(f) => if spec_bool_field(f, "pass"@) {
            Seq::empty()
        } else {
            seq![spec_open_defect(id, source, spec_failed_of_total(f))]
        },
        None => if required {
            seq![spec_open_defect(id, source, "missing "@ + path)]
        } else {
            Seq::empty()
        },
    }
}

fn report_defect(out: &mut Vec<DefectItem>, report: &Option<JsonFields>, id: &str, source: &str, path: &str, required: bool)
    ensures
        defect_views(final(out)@) == defect_views(old(out)@) + spec_report_defect(*report, id@, source@, path@, required),
{
    let ghost before = defect_views(out@);
    match report {
        Some(f) => {
            if !bool_field(f, "pass") {
                let mut d = chars_of("failed=");
                push_dec(&mut d, usize_field(f, "failed"));
                extend_str(&mut d, " of total=");
                push_dec(&mut d, usize_field(f, "total"));
                push_defect(out, open_defect(chars_of(id), source, d));
            }
        },
        None => {
            if required {
                let mut d = chars_of("missing ");
                extend_str(&mut d, path);
                push_defect(out, open_defect(chars_of(id), source, d));
            }
        },
    }
    assert(defect_views(out@) =~= before + spec_report_defect(*report, id@, source@, path@, required));
}

/// What the closure runner read besides its runs: the site branch diff's
/// rows (`None` when the diff is absent) and the guild live check, the
/// service blackbox smoke and the certification reports (`None` when
/// absent).
pub struct ClosureEvidence {
    pub diff_rows: Option<Vec<DiffOutcome>>,
    pub guild_live_check: Option<JsonFields>,
    pub blackbox_smoke: Option<JsonFields>,
    pub certification: Option<JsonFields>,
}

/// Every defect of the closure: failed runs, failing diff services, a
/// failing guild live check, and a failing or missing blackbox smoke and
/// certification.
pub open spec fn spec_closure_defects(runs: Seq<RunView>, e: ClosureEvidence) -> Seq<DefectView> {
    spec_run_defects(runs) + match e.diff_rows {
        Some(rows) => spec_diff_defects(diff_outcome_views(rows@)),
        None => Seq::empty(),
    } + spec_report_defect(e.guild_live_check, "guild-live-check"@, "guild_live_check"@, "target/guild-live-check.json"@, false)
        + spec_report_defect(
        e.blackbox_smoke,
        "service-branch-blackbox-smoke"@,
        "service_branch_blackbox_smoke"@,
        "target/service-branch-blackbox-smoke.json"@,
        true,
    ) + spec_report_defect(
        e.certification,
        "certification-parity"@,
        "parity_certify"@,
        "target/certification/parity-certify.json"@,
        true,
    )
}

pub fn closure_defects(runs: &Vec<CheckRun>, e: &ClosureEvidence) -> (r: Vec<DefectItem>)
    ensures
        defect_views(r@) == spec_closure_defects(run_views(runs@), *e),
{
    let ghost rv = run_views(runs@);
    let mut out: Vec<DefectItem> = Vec::new();
    let mut i: usize = 0;
    while i < runs.len()
        invariant
            i <= runs.len(),
            rv == run_views(runs@),
            defect_views(out@) == spec_run_defects(rv.take(i as int)),
        decreases runs.len() - i,
    {
        assert(rv.take(i + 1).drop_last() =~= rv.take(i as int));
        if !runs[i].pass {
            let mut id = chars_of("run-");
            extend_str(&mut id, runs[i].id.as_str());
            let mut d = chars_of("command failed: ");
            extend_str(&mut d, runs[i].command.as_str());
            push_defect(&mut out, open_defect(id, runs[i].id.as_str(), d));
        }
        i = i + 1;
    }
    assert(rv.take(runs.len() as int) =~= rv);
    let ghost after_runs = defect_views(out@);
    match &e.diff_rows {
        Some(rows) => {
            let ghost dv = diff_outcome_views(rows@);
            let mut k: usize = 0;
            while k < rows.len()
                invariant
                    k <= rows.len(),
                    dv == diff_outcome_views(rows@),
                    defect_views(out@) == after_runs + spec_diff_defects(dv.take(k as int)),
                decreases rows.len() - k,
            {
                assert(dv.take(k + 1).drop_last() =~= dv.take(k as int));
                if !rows[k].pass {
                    let mut id = chars_of("branch-");
                    extend_str(&mut id, rows[k].service.as_str());
                    push_defect(&mut out, open_defect(id, "site_branch_diff", chars_of(rows[k].details.as_str())));
                }
                k = k + 1;
            }
            assert(dv.take(rows.len() as int) =~= dv);
        },
        None => {
            assert(after_runs + Seq::<DefectView>::empty() =~= after_runs);
        },
    }
    report_defect(&mut out, &e.guild_live_check, "guild-live-check", "guild_live_check", "target/guild-live-check.json", false);
    report_defect(
        &mut out,
        &e.blackbox_smoke,
        "service-branch-blackbox-smoke",
        "service_branch_blackbox_smoke",
        "target/service-branch-blackbox-smoke.json",
        true,
    );
    report_defect(
        &mut out,
        &e.certification,
        "certification-parity",
        "parity_certify",
        "target/certification/parity-certify.json",
        true,
    );
    out
}

// ---------------------------------------------------------------------------
// The defect board
// ---------------------------------------------------------------------------

#[derive(Debug, Clone)]
pub struct GuildParityDefectBoard {
    pub generated_at_utc: String,
    pub total_checks: usize,
    pub failed_checks: usize,
    pub open: usize,
    pub closed: usize,
    pub items: Vec<DefectItem>,
    pub checks: Vec<CheckRun>,
}

pub open spec fn spec_failed_runs(runs: Seq<RunView>) -> nat
    decreases runs.len(),
{
    if runs.len() == 0 {
        0
    } else {
        spec_failed_runs(runs.drop_last()) + if !runs.last().pass {
            1nat
        } else {
            0nat
        }
    }
}

pub open spec fn spec_open_defects(ds: Seq<DefectView>) -> nat
    decreases ds.len(),
{
    if ds.len() == 0 {
        0
    } else {
        spec_open_defects(ds.drop_last()) + if ds.last().status == "OPEN"@ {
            1nat
        } else {
            0nat
        }
    }
}

proof fn lemma_failed_runs_le(runs: Seq<RunView>)
    ensures
        spec_failed_runs(runs) <= runs.len(),
    decreases runs.len(),
{
    if runs.len() > 0 {
        lemma_failed_runs_le(runs.drop_last());
    }
}

proof fn lemma_open_defects_le(ds: Seq<DefectView>)
    ensures
        spec_open_defects(ds) <= ds.len(),
    decreases ds.len(),
{
    if ds.len() > 0 {
        lemma_open_defects_le(ds.drop_last());
    }
}

/// `b` sums up the runs and the defects: it keeps both, counts the runs
/// and the failed ones, and counts the open defects; the rest are closed.
pub open spec fn is_board_of(b: GuildParityDefectBoard, runs: Seq<RunView>, items: Seq<DefectView>) -> bool {
    &&& run_views(b.checks@) == runs
    &&& defect_views(b.items@) == items
    &&& b.total_checks == runs.len()
    &&& b.failed_checks == spec_failed_runs(runs)
    &&& b.open == spec_open_defects(items)
    &&& b.closed == items.len() - spec_open_defects(items)
}

/// The defect board of the runs and the defects, stamped
/// `generated_at_utc`.
pub fn defect_board_at(runs: Vec<CheckRun>, items: Vec<DefectItem>, generated_at_utc: String) -> (r: GuildParityDefectBoard)
    ensures
        is_board_of(r, run_views(runs@), defect_views(items@)),
        r.generated_at_utc@ == generated_at_utc@,
{
    let ghost rv = run_views(runs@);
    let mut failed: usize = 0;
    let mut i: usize = 0;
    while i < runs.len()
        invariant
            i <= runs.len(),
            rv == run_views(runs@),
            failed == spec_failed_runs(rv.take(i as int)),
        decreases runs.len() - i,
    {
        assert(rv.take(i + 1).drop_last() =~= rv.take(i as int));
        proof {
            lemma_failed_runs_le(rv.take(i as int));
        }
        if !runs[i].pass {
            failed = failed + 1;
        }
        i = i + 1;
    }
    assert(rv.take(runs.len() as int) =~= rv);
    let ghost dv = defect_views(items@);
    let mut open: usize = 0;
    let mut k: usize = 0;
    while k < items.len()
        invariant
            k <= items.len(),
            dv == defect_views(items@),
            open == spec_open_defects(dv.take(k as int)),
        decreases items.len() - k,
    {
        assert(dv.take(k + 1).drop_last() =~= dv.take(k as int));
        proof {
            lemma_open_defects_le(dv.take(k as int));
        }
        let st = chars_of(items[k].status.as_str());
        if chars_eq_str(&st, "OPEN") {
            open = open + 1;
        }
        k = k + 1;
    }
    assert(dv.take(items.len() as int) =~= dv);
    proof {
        lemma_open_defects_le(dv);
    }
    let total = runs.len();
    let closed = items.len() - open;
    GuildParityDefectBoard { generated_at_utc, total_checks: total, failed_checks: failed, open, closed, items, checks: runs }
}

/// The defect board, stamped with the current time.
pub fn build_defect_board(runs: Vec<CheckRun>, items: Vec<DefectItem>) -> (r: GuildParityDefectBoard)
    ensures
        is_board_of(r, run_views(runs@), defect_views(items@)),
        exists|secs: u64| r.generated_at_utc@ == spec_unix_stamp(secs as nat),
{
    let stamp = now_utc_unix();
    defect_board_at(runs, items, stamp)
}

pub open spec fn spec_defect_row_md(d: DefectView) -> Seq<char> {
    "| "@ + d.id + " | "@ + d.severity + " | "@ + d.source + " | "@ + d.status + " | "@
        + spec_replace_char(d.details, '|', "\\|"@) + " |\n"@
}

pub open spec fn spec_defect_rows_md(ds: Seq<DefectView>) -> Seq<char>
    decreases ds.len(),
{
    if ds.len() == 0 {
        Seq::empty()
    } else {
        spec_defect_rows_md(ds.drop_last()) + spec_defect_row_md(ds.last())
    }
}

pub open spec fn spec_run_row_md(c: CheckRun) -> Seq<char> {
    "| "@ + c.id@ + " | "@ + (if c.pass { "PASS"@ } else { "FAIL"@ }) + " | "@ + spec_int(c.exit_code as int)
        + " | "@ + spec_dec(c.duration_ms as nat) + " |\n"@
}

pub open spec fn spec_run_rows_md(cs: Seq<CheckRun>) -> Seq<char>
    decreases cs.len(),
{
    if cs.len() == 0 {
        Seq::empty()
    } else {
        spec_run_rows_md(cs.drop_last()) + spec_run_row_md(cs.last())
    }
}

/// The Markdown rendering of a defect board.
pub open spec fn spec_board_markdown(b: GuildParityDefectBoard) -> Seq<char> {
    "# Guild Parity Defect Board\n\n- generated_at_utc: `"@ + b.generated_at_utc@ + "`\n- total_checks: `"@
        + spec_dec(b.total_checks as nat) + "`\n- failed_checks: `"@ + spec_dec(b.failed_checks as nat)
        + "`\n- open: `"@ + spec_dec(b.open as nat) + "`\n- closed: `"@ + spec_dec(b.closed as nat)
        + "`\n\n## Defects\n\n"@ + (if b.items.len() == 0 {
        "- none\n\n"@
    } else {
        "| ID | Severity | Source | Status | Details |\n|---|---|---|---|---|\n"@ + spec_defect_rows_md(
            defect_views(b.items@),
        ) + "\n"@
    }) + "## Check Runs\n\n| Check | Status | Exit | Duration (ms) |\n|---|---|---:|---:|\n"@
        + spec_run_rows_md(b.checks@)
}

fn push_defect_row(out: &mut Vec<char>, d: &DefectItem)
    ensures
        final(out)@ == old(out)@ + spec_defect_row_md(defect_view(*d)),
{
    extend_str(out, "| ");
    extend_str(out, d.id.as_str());
    extend_str(out, " | ");
    extend_str(out, d.severity.as_str());
    extend_str(out, " | ");
    extend_str(out, d.source.as_str());
    extend_str(out, " | ");
    extend_str(out, d.status.as_str());
    extend_str(out, " | ");
    let det = chars_of(d.details.as_str());
    let escaped = replace_char_str(&det, '|', "\\|");
    extend(out, &escaped);
    extend_str(out, " |\n");
}

fn push_run_row(out: &mut Vec<char>, c: &CheckRun)
    ensures
        final(out)@ == old(out)@ + spec_run_row_md(*c),
{
    extend_str(out, "| ");
    extend_str(out, c.id.as_str());
    extend_str(out, " | ");
    if c.pass {
        extend_str(out, "PASS");
    } else {
        extend_str(out, "FAIL");
    }
    extend_str(out, " | ");
    push_int(out, c.exit_code as i64);
    extend_str(out, " | ");
    push_dec_wide(out, c.duration_ms);
    extend_str(out, " |\n");
}

pub fn board_markdown(b: &GuildParityDefectBoard) -> (r: String)
    ensures
        r@ == spec_board_markdown(*b),
{
    let mut out: Vec<char> = Vec::new();
    extend_str(&mut out, "# Guild Parity Defect Board\n\n- generated_at_utc: `");
    extend_str(&mut out, b.generated_at_utc.as_str());
    extend_str(&mut out, "`\n- total_checks: `");
    push_dec(&mut out, b.total_checks as u64);
    extend_str(&mut out, "`\n- failed_checks: `");
    push_dec(&mut out, b.failed_checks as u64);
    extend_str(&mut out, "`\n- open: `");
    push_dec(&mut out, b.open as u64);
    extend_str(&mut out, "`\n- closed: `");
    push_dec(&mut out, b.closed as u64);
    extend_str(&mut out, "`\n\n## Defects\n\n");
    if b.items.len() == 0 {
        extend_str(&mut out, "- none\n\n");
    } else {
        extend_str(&mut out, "| ID | Severity | Source | Status | Details |\n|---|---|---|---|---|\n");
        let ghost head = out@;
        let ghost v = defect_views(b.items@);
        let mut i: usize = 0;
        while i < b.items.len()
            invariant
                i <= b.items.len(),
                v == defect_views(b.items@),
                out@ == head + spec_defect_rows_md(v.take(i as int)),
            decreases b.items.len() - i,
        {
            assert(v.take(i + 1).drop_last() =~= v.take(i as int));
            push_defect_row(&mut out, &b.items[i]);
            i = i + 1;
        }
        assert(v.take(b.items.len() as int) =~= v);
        extend_str(&mut out, "\n");
    }
    extend_str(&mut out, "## Check Runs\n\n| Check | Status | Exit | Duration (ms) |\n|---|---|---:|---:|\n");
    let ghost head2 = out@;
    let ghost cs = b.checks@;
    let mut k: usize = 0;
    while k < b.checks.len()
        invariant
            k <= b.checks.len(),
            cs == b.checks@,
            out@ == head2 + spec_run_rows_md(cs.take(k as int)),
        decreases b.checks.len() - k,
    {
        assert(cs.take(k + 1).drop_last() =~= cs.take(k as int));
        push_run_row(&mut out, &b.checks[k]);
        k = k + 1;
    }
    assert(cs.take(b.checks.len() as int) =~= cs);
    string_of(&out)
}

} // verus!
