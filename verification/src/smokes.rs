//! Reports that read other reports: the quest defect board, the save
//! compatibility report, the runtime user regression smoke and the replay
//! tool's verdict; and the scripted random source of the mechanics smoke.
use vstd::prelude::*;

use crate::fields::{spec_report_verdict, JsonFields};
use crate::recovery::{check_views, CheckView};
use crate::refresh::MatrixCheck;
use crate::replay::RegressionDashboard;
use crate::reports::{push_bool, spec_bool_text};
use crate::tables::{spec_pass_text, texts_view};
use crate::text::{
    chars_of, extend, extend_str, join, push_dec, replace_char_str, spec_dec, spec_join, spec_replace_char,
    string_of,
};

verus! {

broadcast use crate::views::group_view_lemmas;

fn text(s: &str) -> (r: String)
    ensures
        r@ == s@,
{
    string_of(&chars_of(s))
}

fn push_line(lines: &mut Vec<Vec<char>>, l: Vec<char>)
    ensures
        final(lines).deep_view() == old(lines).deep_view().push(l@),
{
    let ghost before = lines.deep_view();
    lines.push(l);
    assert(lines.deep_view() =~= before.push(l@));
}

fn push_pass(out: &mut Vec<char>, b: bool)
    ensures
        final(out)@ == old(out)@ + spec_pass_text(b),
{
    if b {
        extend_str(out, "PASS");
    } else {
        extend_str(out, "FAIL");
    }
}

fn counted(prefix: &str, n: usize) -> (r: Vec<char>)
    ensures
        r@ == prefix@ + spec_dec(n as nat),
{
    let mut l = chars_of(prefix);
    push_dec(&mut l, n as u64);
    l
}

// ---------------------------------------------------------------------------
// The quest defect board
// ---------------------------------------------------------------------------

/// The artifacts the quest defect board scans, each with whether it must
/// report a pass.
pub open spec fn spec_quest_artifacts() -> Seq<(Seq<char>, bool)> {
    seq![
        ("target/legacy-quest-contract.json"@, false),
        ("target/classic-site-service-parity-matrix.json"@, true),
        ("target/quest-parity-matrix.json"@, true),
        ("target/quest-parity-smoke.json"@, true),
    ]
}

pub open spec fn artifacts_view(v: Seq<(String, bool)>) -> Seq<(Seq<char>, bool)> {
    Seq::new(v.len(), |i: int| (v[i].0@, v[i].1))
}

pub fn quest_artifacts() -> (r: Vec<(String, bool)>)
    ensures
        artifacts_view(r@) == spec_quest_artifacts(),
{
    let r = vec![
        (text("target/legacy-quest-contract.json"), false),
        (text("target/classic-site-service-parity-matrix.json"), true),
        (text("target/quest-parity-matrix.json"), true),
        (text("target/quest-parity-smoke.json"), true),
    ];
    assert(artifacts_view(r@) =~= spec_quest_artifacts());
    r
}

/// A path with `/`, `-` and `.` turned into `_`.
pub open spec fn spec_path_token(p: Seq<char>) -> Seq<char> {
    p.map_values(|c: char| if c == '/' || c == '-' || c == '.' { '_' } else { c })
}

fn path_token(p: &str) -> (r: Vec<char>)
    ensures
        r@ == spec_path_token(p@),
{
    let s = chars_of(p);
    let mut out: Vec<char> = Vec::new();
    let mut i: usize = 0;
    while i < s.len()
        invariant
            i <= s.len(),
            out@ == spec_path_token(s@).take(i as int),
            s@ == p@,
        decreases s.len() - i,
    {
        let c = s[i];
        out.push(if c == '/' || c == '-' || c == '.' { '_' } else { c });
        assert(out@ =~= spec_path_token(s@).take(i + 1));
        i = i + 1;
    }
    assert(spec_path_token(s@).take(s.len() as int) =~= spec_path_token(s@));
    out
}

#[derive(Debug, Clone)]
pub struct QuestDefect {
    pub id: String,
    pub artifact: String,
    pub status: String,
    pub details: String,
}

pub struct QuestDefectView {
    pub id: Seq<char>,
    pub artifact: Seq<char>,
    pub status: Seq<char>,
    pub details: Seq<char>,
}

pub open spec fn quest_defect_views(v: Seq<QuestDefect>) -> Seq<QuestDefectView> {
    Seq::new(v.len(), |i: int| QuestDefectView { id: v[i].id@, artifact: v[i].artifact@, status: v[i].status@, details: v[i].details@ })
}

/// What was found of an artifact: whether it exists, and the report read
/// from it where it must pass.
#[derive(Debug, Clone)]
pub struct QuestArtifactScan {
    pub path: String,
    pub requires_pass: bool,
    pub present: bool,
    pub report: Option<JsonFields>,
}

/// The defect an artifact opens: a missing artifact, or one that must pass
/// and does not.
pub open spec fn spec_quest_defect(a: QuestArtifactScan) -> Seq<QuestDefectView> {
    if !a.present {
        seq![
            QuestDefectView {
                id: "missing_"@ + spec_path_token(a.path@),
                artifact: a.path@,
                status: "MISSING"@,
                details: "artifact not found"@,
            },
        ]
    } else if !a.requires_pass {
        Seq::empty()
    } else if match a.report {
        Some(f) => spec_report_verdict(f, false),
        None => false,
    } {
        Seq::empty()
    } else {
        seq![
            QuestDefectView {
                id: "failing_"@ + spec_path_token(a.path@),
                artifact: a.path@,
                status: "FAIL"@,
                details: "artifact reported pass=false"@,
            },
        ]
    }
}

pub open spec fn spec_quest_defects(scans: Seq<QuestArtifactScan>) -> Seq<QuestDefectView>
    decreases scans.len(),
{
    if scans.len() == 0 {
        Seq::empty()
    } else {
        spec_quest_defects(scans.drop_last()) + spec_quest_defect(scans.last())
    }
}

fn quest_defect_of(id_prefix: &str, path: &str, status: &str, details: &str) -> (r: QuestDefect)
    ensures
        quest_defect_views(seq![r])[0] == (QuestDefectView {
            id: id_prefix@ + spec_path_token(path@),
            artifact: path@,
            status: status@,
            details: details@,
        }),
{
    let mut id = chars_of(id_prefix);
    let t = path_token(path);
    extend(&mut id, &t);
    QuestDefect { id: string_of(&id), artifact: text(path), status: text(status), details: text(details) }
}

/// The open defects of the scanned artifacts, in order.
pub fn quest_defects(scans: &Vec<QuestArtifactScan>) -> (r: Vec<QuestDefect>)
    ensures
        quest_defect_views(r@) == spec_quest_defects(scans@),
{
    let mut out: Vec<QuestDefect> = Vec::new();
    let mut i: usize = 0;
    while i < scans.len()
        invariant
            i <= scans.len(),
            quest_defect_views(out@) == spec_quest_defects(scans@.take(i as int)),
        decreases scans.len() - i,
    {
        assert(scans@.take(i + 1).drop_last() =~= scans@.take(i as int));
        let a = &scans[i];
        let ghost before = quest_defect_views(out@);
        if !a.present {
            let d = quest_defect_of("missing_", a.path.as_str(), "MISSING", "artifact not found");
            out.push(d);
            assert(quest_defect_views(out@) =~= before + quest_defect_views(seq![d]));
        } else if a.requires_pass {
            let pass = crate::fields::artifact_pass(&a.report);
            if !pass {
                let d = quest_defect_of("failing_", a.path.as_str(), "FAIL", "artifact reported pass=false");
                out.push(d);
                assert(quest_defect_views(out@) =~= before + quest_defect_views(seq![d]));
            } else {
                assert(quest_defect_views(out@) =~= before + Seq::<QuestDefectView>::empty());
            }
        } else {
            assert(quest_defect_views(out@) =~= before + Seq::<QuestDefectView>::empty());
        }
        assert(scans@.take(i + 1).last() == scans@[i as int]);
        i = i + 1;
    }
    assert(scans@.take(scans.len() as int) =~= scans@);
    out
}

#[derive(Debug, Clone)]
pub struct QuestDefectBoard {
    pub generated_at_utc: String,
    pub open_defects: Vec<QuestDefect>,
    pub artifacts_scanned: usize,
}

/// The quest defect board of the scanned artifacts, stamped
/// `generated_at_utc`.
pub fn quest_defect_board_at(scans: &Vec<QuestArtifactScan>, generated_at_utc: String) -> (r: QuestDefectBoard)
    ensures
        quest_defect_views(r.open_defects@) == spec_quest_defects(scans@),
        r.artifacts_scanned == scans.len(),
        r.generated_at_utc@ == generated_at_utc@,
{
    QuestDefectBoard { generated_at_utc, open_defects: quest_defects(scans), artifacts_scanned: scans.len() }
}

pub open spec fn spec_quest_row(d: QuestDefectView) -> Seq<char> {
    "| "@ + d.id + " | "@ + d.artifact + " | "@ + d.status + " | "@ + spec_replace_char(d.details, '|', "\\|"@) + " |"@
}

pub open spec fn spec_quest_board_lines(b: QuestDefectBoard) -> Seq<Seq<char>> {
    let ds = quest_defect_views(b.open_defects@);
    seq![
        "# Quest Defect Board"@,
        Seq::empty(),
        "- Generated: "@ + b.generated_at_utc@,
        "- Artifacts scanned: "@ + spec_dec(b.artifacts_scanned as nat),
        "- Open defects: "@ + spec_dec(ds.len()),
        Seq::empty(),
    ] + if ds.len() == 0 {
        seq!["No open quest parity defects."@, Seq::empty()]
    } else {
        seq!["| Defect | Artifact | Status | Details |"@, "|---|---|---|---|"@] + Seq::new(
            ds.len(),
            |i: int| spec_quest_row(ds[i]),
        ) + seq![Seq::empty()]
    }
}

pub fn quest_board_markdown(b: &QuestDefectBoard) -> (md: String)
    ensures
        md@ == spec_join(spec_quest_board_lines(*b), "\n"@),
{
    let ghost ds = quest_defect_views(b.open_defects@);
    let mut lines: Vec<Vec<char>> = Vec::new();
    push_line(&mut lines, chars_of("# Quest Defect Board"));
    push_line(&mut lines, Vec::new());
    let mut g = chars_of("- Generated: ");
    extend_str(&mut g, b.generated_at_utc.as_str());
    push_line(&mut lines, g);
    push_line(&mut lines, counted("- Artifacts scanned: ", b.artifacts_scanned));
    push_line(&mut lines, counted("- Open defects: ", b.open_defects.len()));
    push_line(&mut lines, Vec::new());
    if b.open_defects.len() == 0 {
        push_line(&mut lines, chars_of("No open quest parity defects."));
        push_line(&mut lines, Vec::new());
    } else {
        push_line(&mut lines, chars_of("| Defect | Artifact | Status | Details |"));
        push_line(&mut lines, chars_of("|---|---|---|---|"));
        let ghost head = lines.deep_view();
        let ghost rows = Seq::new(ds.len(), |i: int| spec_quest_row(ds[i]));
        let mut i: usize = 0;
        while i < b.open_defects.len()
            invariant
                i <= b.open_defects.len(),
                ds == quest_defect_views(b.open_defects@),
                rows == Seq::new(ds.len(), |k: int| spec_quest_row(ds[k])),
                lines.deep_view() == head + rows.take(i as int),
            decreases b.open_defects.len() - i,
        {
            let d = &b.open_defects[i];
            let mut l = chars_of("| ");
            extend_str(&mut l, d.id.as_str());
            extend_str(&mut l, " | ");
            extend_str(&mut l, d.artifact.as_str());
            extend_str(&mut l, " | ");
            extend_str(&mut l, d.status.as_str());
            extend_str(&mut l, " | ");
            let esc = replace_char_str(&chars_of(d.details.as_str()), '|', "\\|");
            extend(&mut l, &esc);
            extend_str(&mut l, " |");
            push_line(&mut lines, l);
            assert(rows.take(i + 1) =~= rows.take(i as int).push(rows[i as int]));
            i = i + 1;
        }
        assert(rows.take(b.open_defects.len() as int) =~= rows);
        push_line(&mut lines, Vec::new());
    }
    assert(lines.deep_view() =~= spec_quest_board_lines(*b));
    let sep = chars_of("\n");
    string_of(&join(&lines, &sep))
}

// ---------------------------------------------------------------------------
// Save compatibility
// ---------------------------------------------------------------------------

/// What reading and decoding a save fixture gave.
#[derive(Debug, Clone)]
pub enum SaveDecodeOutcome {
    ReadFailed { error: String },
    DecodeFailed { error: String },
    Decoded { version: u32, saved_turn: u64, saved_minutes: u64, state_turn: u64, state_minutes: u64 },
}

#[derive(Debug, Clone)]
pub struct SaveCaseResult {
    pub file: String,
    pub passed: bool,
    pub details: String,
}

/// A fixture passes when it decodes, migrates to version 1 and keeps the
/// turn and minutes of its metadata.
pub open spec fn spec_save_case(o: SaveDecodeOutcome) -> (bool, Seq<char>) {
    match o {
        SaveDecodeOutcome::ReadFailed { error } => (false, "read failed: "@ + error@),
        SaveDecodeOutcome::DecodeFailed { error } => (false, "decode failed: "@ + error@),
        SaveDecodeOutcome::Decoded { version, saved_turn, saved_minutes, state_turn, state_minutes } => if version != 1 {
            (false, "migrated version="@ + spec_dec(version as nat) + ", expected 1"@)
        } else if saved_turn != state_turn || saved_minutes != state_minutes {
            (false, "metadata turn/minutes mismatch after decode"@)
        } else {
            (true, "decoded and migrated to v1"@)
        },
    }
}

pub fn evaluate_case(file: &str, o: &SaveDecodeOutcome) -> (r: SaveCaseResult)
    ensures
        r.file@ == file@,
        r.passed == spec_save_case(*o).0,
        r.details@ == spec_save_case(*o).1,
{
    let (passed, details) = match o {
        SaveDecodeOutcome::ReadFailed { error } => {
            let mut d = chars_of("read failed: ");
            extend_str(&mut d, error.as_str());
            (false, d)
        },
        SaveDecodeOutcome::DecodeFailed { error } => {
            let mut d = chars_of("decode failed: ");
            extend_str(&mut d, error.as_str());
            (false, d)
        },
        SaveDecodeOutcome::Decoded { version, saved_turn, saved_minutes, state_turn, state_minutes } => {
            if *version != 1 {
                let mut d = chars_of("migrated version=");
                push_dec(&mut d, *version as u64);
                extend_str(&mut d, ", expected 1");
                (false, d)
            } else if *saved_turn != *state_turn || *saved_minutes != *state_minutes {
                (false, chars_of("metadata turn/minutes mismatch after decode"))
            } else {
                (true, chars_of("decoded and migrated to v1"))
            }
        },
    };
    SaveCaseResult { file: text(file), passed, details: string_of(&details) }
}

#[derive(Debug, Clone)]
pub struct SaveCompatReport {
    pub total: usize,
    pub passed: usize,
    pub failed: usize,
    pub pass_rate_percent_x100: u64,
    pub cases: Vec<SaveCaseResult>,
}

pub open spec fn spec_cases_passed(cs: Seq<SaveCaseResult>) -> nat
    decreases cs.len(),
{
    if cs.len() == 0 {
        0
    } else {
        spec_cases_passed(cs.drop_last()) + if cs.last().passed {
            1nat
        } else {
            0nat
        }
    }
}

/// The report of the evaluated cases: the pass rate is in hundredths of a
/// percent, rounded down, and 0 without cases.
pub fn evaluate(cases: Vec<SaveCaseResult>) -> (r: SaveCompatReport)
    ensures
        r.cases@ == cases@,
        r.total == cases.len(),
        r.passed == spec_cases_passed(cases@),
        r.failed == r.total - r.passed,
        r.pass_rate_percent_x100 == if r.total == 0 {
            0
        } else {
            (r.passed * 10000) / (r.total as int)
        },
{
    let mut passed: usize = 0;
    let mut i: usize = 0;
    while i < cases.len()
        invariant
            i <= cases.len(),
            passed == spec_cases_passed(cases@.take(i as int)),
            passed <= i,
        decreases cases.len() - i,
    {
        assert(cases@.take(i + 1).drop_last() =~= cases@.take(i as int));
        if cases[i].passed {
            passed = passed + 1;
        }
        i = i + 1;
    }
    assert(cases@.take(cases.len() as int) =~= cases@);
    let total = cases.len();
    let rate: u64 = if total == 0 {
        0
    } else {
        assert((passed as int) * 10000 / (total as int) <= 10000) by (nonlinear_arith)
            requires
                passed <= total,
                total > 0,
        ;
        (((passed as u128) * 10000) / (total as u128)) as u64
    };
    SaveCompatReport { total, passed, failed: total - passed, pass_rate_percent_x100: rate, cases }
}

pub open spec fn spec_two_digits(n: nat) -> Seq<char> {
    if n < 10 {
        "0"@ + spec_dec(n)
    } else {
        spec_dec(n)
    }
}

pub open spec fn spec_save_row(c: SaveCaseResult) -> Seq<char> {
    "| "@ + c.file@ + " | "@ + spec_pass_text(c.passed) + " | "@ + spec_replace_char(c.details@, '|', "\\|"@) + " |"@
}

pub open spec fn spec_save_lines(r: SaveCompatReport) -> Seq<Seq<char>> {
    seq![
        "# Save Compatibility Report"@,
        Seq::empty(),
        "- Total cases: "@ + spec_dec(r.total as nat),
        "- Passed: "@ + spec_dec(r.passed as nat),
        "- Failed: "@ + spec_dec(r.failed as nat),
        "- Pass rate: "@ + spec_dec((r.pass_rate_percent_x100 / 100) as nat) + "."@ + spec_two_digits(
            (r.pass_rate_percent_x100 % 100) as nat,
        ) + "%"@,
        Seq::empty(),
        "| Fixture | Result | Details |"@,
        "|---|---|---|"@,
    ] + Seq::new(r.cases.len() as nat, |i: int| spec_save_row(r.cases@[i]))
}

pub fn save_compat_markdown(r: &SaveCompatReport) -> (md: String)
    ensures
        md@ == spec_join(spec_save_lines(*r), "\n"@),
{
    let mut lines: Vec<Vec<char>> = Vec::new();
    push_line(&mut lines, chars_of("# Save Compatibility Report"));
    push_line(&mut lines, Vec::new());
    push_line(&mut lines, counted("- Total cases: ", r.total));
    push_line(&mut lines, counted("- Passed: ", r.passed));
    push_line(&mut lines, counted("- Failed: ", r.failed));
    let mut l = chars_of("- Pass rate: ");
    push_dec(&mut l, r.pass_rate_percent_x100 / 100);
    extend_str(&mut l, ".");
    let cents = r.pass_rate_percent_x100 % 100;
    let mut two: Vec<char> = Vec::new();
    if cents < 10 {
        extend_str(&mut two, "0");
    }
    push_dec(&mut two, cents);
    assert(two@ =~= spec_two_digits(cents as nat));
    extend(&mut l, &two);
    extend_str(&mut l, "%");
    push_line(&mut lines, l);
    push_line(&mut lines, Vec::new());
    push_line(&mut lines, chars_of("| Fixture | Result | Details |"));
    push_line(&mut lines, chars_of("|---|---|---|"));
    let ghost head = lines.deep_view();
    let ghost rows = Seq::new(r.cases.len() as nat, |i: int| spec_save_row(r.cases@[i]));
    let mut i: usize = 0;
    while i < r.cases.len()
        invariant
            i <= r.cases.len(),
            rows == Seq::new(r.cases.len() as nat, |k: int| spec_save_row(r.cases@[k])),
            lines.deep_view() == head + rows.take(i as int),
        decreases r.cases.len() - i,
    {
        let c = &r.cases[i];
        let mut l = chars_of("| ");
        extend_str(&mut l, c.file.as_str());
        extend_str(&mut l, " | ");
        push_pass(&mut l, c.passed);
        extend_str(&mut l, " | ");
        let esc = replace_char_str(&chars_of(c.details.as_str()), '|', "\\|");
        extend(&mut l, &esc);
        extend_str(&mut l, " |");
        push_line(&mut lines, l);
        assert(rows.take(i + 1) =~= rows.take(i as int).push(rows[i as int]));
        i = i + 1;
    }
    assert(rows.take(r.cases.len() as int) =~= rows);
    assert(lines.deep_view() =~= spec_save_lines(*r));
    let sep = chars_of("\n");
    string_of(&join(&lines, &sep))
}

// ---------------------------------------------------------------------------
// The runtime user regression smoke
// ---------------------------------------------------------------------------

/// A row of a runtime check list, as its fields read.
#[derive(Debug, Clone)]
pub struct RuntimeRow {
    pub id: Option<String>,
    pub passed: bool,
}

/// A passed row with the id.
pub open spec fn spec_row_is(r: RuntimeRow, id: Seq<char>) -> bool {
    r.passed && match r.id {
        Some(s) => s@ == id,
        None => false,
    }
}

/// Whether one of the rows with the id passed.
pub open spec fn spec_rows_have(rs: Seq<RuntimeRow>, id: Seq<char>) -> bool {
    exists|i: int| 0 <= i < rs.len() && spec_row_is(#[trigger] rs[i], id)
}

/// Whether a row with the id passed.
pub open spec fn spec_row_passed(rows: Option<Seq<RuntimeRow>>, id: Seq<char>) -> bool {
    match rows {
        Some(rs) => spec_rows_have(rs, id),
        None => false,
    }
}

pub open spec fn opt_rows_view(r: Option<Vec<RuntimeRow>>) -> Option<Seq<RuntimeRow>> {
    match r {
        Some(v) => Some(v@),
        None => None,
    }
}

fn row_passed(rows: &Option<Vec<RuntimeRow>>, id: &str) -> (r: bool)
    ensures
        r == spec_row_passed(opt_rows_view(*rows), id@),
{
    match rows {
        None => false,
        Some(rs) => {
            let mut i: usize = 0;
            while i < rs.len()
                invariant
                    i <= rs.len(),
                    opt_rows_view(*rows) == Some(rs@),
                    forall|k: int| 0 <= k < i ==> !spec_row_is(#[trigger] rs@[k], id@),
                decreases rs.len() - i,
            {
                match &rs[i].id {
                    Some(s) => {
                        let c = chars_of(s.as_str());
                        if crate::text::chars_eq_str(&c, id) && rs[i].passed {
                            assert(spec_row_is(rs@[i as int], id@));
                            assert(opt_rows_view(*rows) == Some(rs@));
                            assert(exists|k: int| 0 <= k < rs@.len() && spec_row_is(#[trigger] rs@[k], id@));
                            return true;
                        }
                    },
                    None => {},
                }
                i = i + 1;
            }
            false
        },
    }
}

/// What the runtime user regression smoke reads of the other reports.
#[derive(Debug, Clone)]
pub struct RuntimeEvidence {
    pub arena_pass: bool,
    pub arena_opener_dropped: bool,
    pub arena_exited_after_opener: bool,
    pub inventory_pass: bool,
    /// The inventory contract's runtime check rows, `None` where they are
    /// not a list.
    pub inventory_rows: Option<Vec<RuntimeRow>>,
    pub service_pass: bool,
    pub service_passed: u64,
    pub service_total: u64,
    pub quest_pass: bool,
    /// Number of steps of the quest smoke, 0 where they are not a list.
    pub quest_steps: usize,
    pub victory_pass: bool,
    pub victory_passed: u64,
    pub victory_total: u64,
}

pub open spec fn spec_runtime_checks(e: RuntimeEvidence) -> Seq<CheckView> {
    let show = spec_row_passed(opt_rows_view(e.inventory_rows), "inventory_modal_open"@);
    let look = spec_row_passed(opt_rows_view(e.inventory_rows), "inventory_look_vs_show_parity"@);
    seq![
        CheckView {
            id: "arena_non_terminal_and_exit_after_opener"@,
            passed: e.arena_pass && e.arena_opener_dropped && e.arena_exited_after_opener,
            details: "pass="@ + spec_bool_text(e.arena_pass) + " opener_dropped="@ + spec_bool_text(e.arena_opener_dropped)
                + " exited_after_opener="@ + spec_bool_text(e.arena_exited_after_opener),
        },
        CheckView {
            id: "inventory_show_and_look"@,
            passed: e.inventory_pass && show && look,
            details: "pass="@ + spec_bool_text(e.inventory_pass) + " inventory_modal_open="@ + spec_bool_text(show)
                + " inventory_look_vs_show_parity="@ + spec_bool_text(look),
        },
        CheckView {
            id: "service_branch_oracle"@,
            passed: e.service_pass,
            details: "passed="@ + spec_dec(e.service_passed as nat) + "/"@ + spec_dec(e.service_total as nat),
        },
        CheckView {
            id: "quest_smoke"@,
            passed: e.quest_pass,
            details: "steps="@ + spec_dec(e.quest_steps as nat) + " pass="@ + spec_bool_text(e.quest_pass),
        },
        CheckView {
            id: "victory_parity"@,
            passed: e.victory_pass,
            details: "passed="@ + spec_dec(e.victory_passed as nat) + "/"@ + spec_dec(e.victory_total as nat),
        },
    ]
}

fn check(id: &str, passed: bool, details: Vec<char>) -> (r: MatrixCheck)
    ensures
        check_views(seq![r])[0] == (CheckView { id: id@, passed, details: details@ }),
{
    MatrixCheck { id: text(id), passed, details: string_of(&details) }
}

pub fn runtime_checks(e: &RuntimeEvidence) -> (r: Vec<MatrixCheck>)
    ensures
        check_views(r@) == spec_runtime_checks(*e),
{
    let show = row_passed(&e.inventory_rows, "inventory_modal_open");
    let look = row_passed(&e.inventory_rows, "inventory_look_vs_show_parity");
    let mut d1 = chars_of("pass=");
    push_bool(&mut d1, e.arena_pass);
    extend_str(&mut d1, " opener_dropped=");
    push_bool(&mut d1, e.arena_opener_dropped);
    extend_str(&mut d1, " exited_after_opener=");
    push_bool(&mut d1, e.arena_exited_after_opener);
    let mut d2 = chars_of("pass=");
    push_bool(&mut d2, e.inventory_pass);
    extend_str(&mut d2, " inventory_modal_open=");
    push_bool(&mut d2, show);
    extend_str(&mut d2, " inventory_look_vs_show_parity=");
    push_bool(&mut d2, look);
    let mut d3 = chars_of("passed=");
    push_dec(&mut d3, e.service_passed);
    extend_str(&mut d3, "/");
    push_dec(&mut d3, e.service_total);
    let mut d4 = chars_of("steps=");
    push_dec(&mut d4, e.quest_steps as u64);
    extend_str(&mut d4, " pass=");
    push_bool(&mut d4, e.quest_pass);
    let mut d5 = chars_of("passed=");
    push_dec(&mut d5, e.victory_passed);
    extend_str(&mut d5, "/");
    push_dec(&mut d5, e.victory_total);
    let r = vec![
        check("arena_non_terminal_and_exit_after_opener", e.arena_pass && e.arena_opener_dropped && e.arena_exited_after_opener, d1),
        check("inventory_show_and_look", e.inventory_pass && show && look, d2),
        check("service_branch_oracle", e.service_pass, d3),
        check("quest_smoke", e.quest_pass, d4),
        check("victory_parity", e.victory_pass, d5),
    ];
    assert(check_views(r@) =~= spec_runtime_checks(*e));
    r
}

pub open spec fn spec_runtime_row(c: CheckView) -> Seq<char> {
    "| "@ + c.id + " | "@ + spec_pass_text(c.passed) + " | "@ + spec_replace_char(c.details, '|', "\\|"@) + " |\n"@
}

pub open spec fn spec_runtime_rows(cs: Seq<CheckView>) -> Seq<char>
    decreases cs.len(),
{
    if cs.len() == 0 {
        Seq::empty()
    } else {
        spec_runtime_rows(cs.drop_last()) + spec_runtime_row(cs.last())
    }
}

/// The Markdown of the runtime user regression smoke.
pub open spec fn spec_runtime_markdown(m: crate::refresh::TrueMatrix) -> Seq<char> {
    "# Runtime User Regression Smoke\n\n- generated_at_utc: `"@ + m.generated_at_utc@ + "`\n- total: `"@ + spec_dec(
        m.total as nat,
    ) + "`\n- passed: `"@ + spec_dec(m.passed as nat) + "`\n- failed: `"@ + spec_dec(m.failed as nat)
        + "`\n- status: `"@ + spec_pass_text(m.pass) + "`\n\n| Check | Status | Details |\n|---|---|---|\n"@
        + spec_runtime_rows(check_views(m.checks@))
}

pub fn runtime_markdown(m: &crate::refresh::TrueMatrix) -> (md: String)
    ensures
        md@ == spec_runtime_markdown(*m),
{
    let mut out = chars_of("# Runtime User Regression Smoke\n\n- generated_at_utc: `");
    extend_str(&mut out, m.generated_at_utc.as_str());
    extend_str(&mut out, "`\n- total: `");
    push_dec(&mut out, m.total as u64);
    extend_str(&mut out, "`\n- passed: `");
    push_dec(&mut out, m.passed as u64);
    extend_str(&mut out, "`\n- failed: `");
    push_dec(&mut out, m.failed as u64);
    extend_str(&mut out, "`\n- status: `");
    push_pass(&mut out, m.pass);
    extend_str(&mut out, "`\n\n| Check | Status | Details |\n|---|---|---|\n");
    let ghost head = out@;
    let ghost cv = check_views(m.checks@);
    let mut i: usize = 0;
    while i < m.checks.len()
        invariant
            i <= m.checks.len(),
            cv == check_views(m.checks@),
            out@ == head + spec_runtime_rows(cv.take(i as int)),
        decreases m.checks.len() - i,
    {
        assert(cv.take(i + 1).drop_last() =~= cv.take(i as int));
        let c = &m.checks[i];
        extend_str(&mut out, "| ");
        extend_str(&mut out, c.id.as_str());
        extend_str(&mut out, " | ");
        push_pass(&mut out, c.passed);
        extend_str(&mut out, " | ");
        let esc = replace_char_str(&chars_of(c.details.as_str()), '|', "\\|");
        extend(&mut out, &esc);
        extend_str(&mut out, " |\n");
        assert(out@ =~= head + spec_runtime_rows(cv.take(i + 1)));
        i = i + 1;
    }
    assert(cv.take(m.checks.len() as int) =~= cv);
    string_of(&out)
}

// ---------------------------------------------------------------------------
// The replay tool's verdict
// ---------------------------------------------------------------------------

/// Why the replay tool fails after running the fixtures.
#[derive(Debug, Clone, Copy, PartialEq, Eq)]
pub enum ReplayToolFailure {
    /// Fewer scenarios than required count: the count and the minimum.
    DenominatorTooSmall { count: usize, required: usize },
    /// Some counted scenario failed.
    RegressionFailures,
}

/// The replay tool's verdict on a dashboard: the active scenarios (or all
/// of them) must number at least `min_scenarios`, and none of them may
/// fail.
pub open spec fn spec_replay_tool_verdict(d: RegressionDashboard, min_scenarios: usize, include_inactive: bool) -> Result<(), ReplayToolFailure> {
    let denominator = if include_inactive { d.total } else { d.active_total };
    let failures = if include_inactive { d.failed } else { d.failed_active };
    if denominator < min_scenarios {
        Err(ReplayToolFailure::DenominatorTooSmall { count: denominator, required: min_scenarios })
    } else if failures > 0 {
        Err(ReplayToolFailure::RegressionFailures)
    } else {
        Ok(())
    }
}

pub fn replay_tool_verdict(d: &RegressionDashboard, min_scenarios: usize, include_inactive: bool) -> (r: Result<(), ReplayToolFailure>)
    ensures
        r == spec_replay_tool_verdict(*d, min_scenarios, include_inactive),
{
    let denominator = if include_inactive { d.total } else { d.active_total };
    let failures = if include_inactive { d.failed } else { d.failed_active };
    if denominator < min_scenarios {
        Err(ReplayToolFailure::DenominatorTooSmall { count: denominator, required: min_scenarios })
    } else if failures > 0 {
        Err(ReplayToolFailure::RegressionFailures)
    } else {
        Ok(())
    }
}

/// The replay tool's summary line.
pub open spec fn spec_replay_summary(d: RegressionDashboard) -> Seq<char> {
    "Summary: total="@ + spec_dec(d.total as nat) + " passed="@ + spec_dec(d.passed as nat) + " failed="@ + spec_dec(
        d.failed as nat,
    ) + " | active_total="@ + spec_dec(d.active_total as nat) + " active_passed="@ + spec_dec(d.active_passed as nat)
        + " failed_active="@ + spec_dec(d.failed_active as nat) + " | inactive_total="@ + spec_dec(
        d.inactive_total as nat,
    ) + " inactive_passed="@ + spec_dec(d.inactive_passed as nat) + " failed_inactive="@ + spec_dec(
        d.failed_inactive as nat,
    ) + " schema_mismatch="@ + spec_dec(d.schema_mismatch_total as nat)
}

pub fn replay_summary_line(d: &RegressionDashboard) -> (r: String)
    ensures
        r@ == spec_replay_summary(*d),
{
    let mut out = chars_of("Summary: total=");
    push_dec(&mut out, d.total as u64);
    extend_str(&mut out, " passed=");
    push_dec(&mut out, d.passed as u64);
    extend_str(&mut out, " failed=");
    push_dec(&mut out, d.failed as u64);
    extend_str(&mut out, " | active_total=");
    push_dec(&mut out, d.active_total as u64);
    extend_str(&mut out, " active_passed=");
    push_dec(&mut out, d.active_passed as u64);
    extend_str(&mut out, " failed_active=");
    push_dec(&mut out, d.failed_active as u64);
    extend_str(&mut out, " | inactive_total=");
    push_dec(&mut out, d.inactive_total as u64);
    extend_str(&mut out, " inactive_passed=");
    push_dec(&mut out, d.inactive_passed as u64);
    extend_str(&mut out, " failed_inactive=");
    push_dec(&mut out, d.failed_inactive as u64);
    extend_str(&mut out, " schema_mismatch=");
    push_dec(&mut out, d.schema_mismatch_total as u64);
    string_of(&out)
}

/// The line the replay tool prints for a scenario, and the lines of its
/// checks when it failed.
pub open spec fn spec_scenario_lines(s: crate::replay::ReplayScenarioResult) -> Seq<Seq<char>> {
    seq![
        "["@ + spec_pass_text(s.passed) + "] "@ + s.name@ + " ("@ + (if s.active { "active"@ } else { "inactive"@ })
            + ", turn="@ + spec_dec(s.final_turn as nat) + ", minutes="@ + spec_dec(s.final_minutes as nat) + ")"@,
    ] + if s.passed {
        Seq::empty()
    } else {
        Seq::new(s.checks.len() as nat, |i: int| "  - "@ + s.checks@[i]@)
    }
}

pub fn scenario_lines(s: &crate::replay::ReplayScenarioResult) -> (r: Vec<String>)
    ensures
        texts_view(r@) == spec_scenario_lines(*s),
{
    let mut head = chars_of("[");
    push_pass(&mut head, s.passed);
    extend_str(&mut head, "] ");
    extend_str(&mut head, s.name.as_str());
    extend_str(&mut head, " (");
    if s.active {
        extend_str(&mut head, "active");
    } else {
        extend_str(&mut head, "inactive");
    }
    extend_str(&mut head, ", turn=");
    push_dec(&mut head, s.final_turn);
    extend_str(&mut head, ", minutes=");
    push_dec(&mut head, s.final_minutes);
    extend_str(&mut head, ")");
    let mut out: Vec<String> = Vec::new();
    out.push(string_of(&head));
    let ghost target = spec_scenario_lines(*s);
    assert(texts_view(out@) =~= target.take(1));
    if !s.passed {
        let mut i: usize = 0;
        while i < s.checks.len()
            invariant
                i <= s.checks.len(),
                !s.passed,
                target == spec_scenario_lines(*s),
                texts_view(out@) == target.take(i + 1),
            decreases s.checks.len() - i,
        {
            let mut l = chars_of("  - ");
            extend_str(&mut l, s.checks[i].as_str());
            let ghost before = texts_view(out@);
            out.push(string_of(&l));
            assert(texts_view(out@) =~= before.push(target[i + 1]));
            assert(target.take(i + 2) =~= target.take(i + 1).push(target[i + 1]));
            i = i + 1;
        }
    }
    assert(texts_view(out@) =~= target);
    out
}

// ---------------------------------------------------------------------------
// A scripted random source
// ---------------------------------------------------------------------------

/// A random source that hands out a fixed list of values, then the lower
/// bound, each clamped into the asked range.
#[derive(Debug, Clone)]
pub struct ScriptedRng {
    pub values: Vec<i32>,
    pub cursor: usize,
}

impl ScriptedRng {
    pub fn new(values: Vec<i32>) -> (r: Self)
        ensures
            r.values@ == values@,
            r.cursor == 0,
    {
        ScriptedRng { values, cursor: 0 }
    }

    /// The next value in `[min, max]`.
    pub fn range_inclusive_i32(&mut self, min: i32, max: i32) -> (r: i32)
        requires
            min <= max,
        ensures
            final(self).values@ == old(self).values@,
            final(self).cursor == if old(self).cursor == usize::MAX { usize::MAX } else { (old(self).cursor + 1) as usize },
            r == ({
                let v = if old(self).cursor < old(self).values.len() { old(self).values@[old(self).cursor as int] } else { min };
                if v < min { min } else if v > max { max } else { v }
            }),
    {
        let value = if self.cursor < self.values.len() { self.values[self.cursor] } else { min };
        self.cursor = if self.cursor == usize::MAX { usize::MAX } else { self.cursor + 1 };
        if value < min {
            min
        } else if value > max {
            max
        } else {
            value
        }
    }
}

} // verus!
