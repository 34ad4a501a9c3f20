//! Reports read from their JSON texts: each text is parsed here, and what
//! the tools judge is taken from the parsed fields.
use vstd::prelude::*;

use crate::closure::{ClosureEvidence, DiffOutcome, DiffOutcomeView, diff_outcome_views};
use crate::deviations::DeviationEvidence;
use crate::fields::{
    artifact_is_pass, bool_field, fields_view, find_field, json_fields_of, opt_fields_view, parse_json_fields,
    report_of_text, spec_lookup, spec_report_of_text, usize_field, FieldValue, FieldView, JsonFields,
};
use crate::smokes::{QuestArtifactScan, RuntimeEvidence, RuntimeRow};
use crate::text::spec_ends_with;

verus! {

/// Parsed fields, as their views.
pub type FieldsView = Seq<(Seq<char>, FieldView)>;

/// `value[key].as_bool().unwrap_or(false)` over parsed fields.
pub open spec fn spec_flag_of(fs: FieldsView, key: Seq<char>) -> bool {
    spec_lookup(fs, key) == Some(FieldView::Bool(true))
}

/// `value[key].as_u64().unwrap_or(0)` over parsed fields.
pub open spec fn spec_count_of(fs: FieldsView, key: Seq<char>) -> u64 {
    match spec_lookup(fs, key) {
        Some(FieldView::Unsigned(n)) => n,
        _ => 0,
    }
}

/// `value[key].as_str()` over parsed fields.
pub open spec fn spec_text_of(fs: FieldsView, key: Seq<char>) -> Option<Seq<char>> {
    match spec_lookup(fs, key) {
        Some(FieldView::Text(t)) => Some(t),
        _ => None,
    }
}

/// The verdict of a report: its `pass` flag, else whether its `status` is
/// `PASS`, else `otherwise`.
pub open spec fn spec_verdict_of(fs: FieldsView, otherwise: bool) -> bool {
    match spec_lookup(fs, "pass"@) {
        Some(FieldView::Bool(b)) => b,
        _ => match spec_lookup(fs, "status"@) {
            Some(FieldView::Text(s)) => s == "PASS"@,
            _ => otherwise,
        },
    }
}

pub open spec fn opt_text(o: Option<String>) -> Option<Seq<char>> {
    match o {
        Some(s) => Some(s@),
        None => None,
    }
}

/// The text of field `key`, where it is text.
pub fn text_field(f: &JsonFields, key: &str) -> (r: Option<String>)
    ensures
        opt_text(r) == spec_text_of(fields_view(*f), key@),
{
    match find_field(f, key) {
        Some(i) => match &f.entries[i].1 {
            FieldValue::Text(s) => Some(s.clone()),
            _ => None,
        },
        None => None,
    }
}

// ---------------------------------------------------------------------------
// The parity gate
// ---------------------------------------------------------------------------

/// Whether an artifact counts as passing for the parity gate, given its
/// text (`None` where it could not be read): a file other than JSON
/// passes; a JSON report that does not parse fails; a report with neither
/// verdict passes.
pub fn artifact_text_is_pass(path: &str, raw: &Option<String>) -> (r: bool)
    ensures
        r == if !spec_ends_with(path@, ".json"@) {
            true
        } else {
            match spec_report_of_text(*raw) {
                Some(fs) => spec_verdict_of(fs, true),
                None => false,
            }
        },
{
    let report = report_of_text(raw);
    artifact_is_pass(path, &report)
}

// ---------------------------------------------------------------------------
// The deviation ledger
// ---------------------------------------------------------------------------

/// The texts of the reports the deviation ledger reads, `None` where one
/// could not be read.
#[derive(Debug, Clone)]
pub struct DeviationTexts {
    pub environment: Option<String>,
    pub command: Option<String>,
    pub spells: Option<String>,
    pub items: Option<String>,
    pub combat: Option<String>,
    pub site: Option<String>,
    pub progression: Option<String>,
    pub compatibility: Option<String>,
    pub frontend: Option<String>,
    pub dashboard: Option<String>,
    pub burnin: Option<String>,
    pub baseline: Option<String>,
}

/// The deviation evidence of the reports' texts: each report parsed, and
/// `None` where it was not read or does not parse.
pub fn deviation_evidence_of_texts(t: &DeviationTexts) -> (r: DeviationEvidence)
    ensures
        opt_fields_view(r.environment) == spec_report_of_text(t.environment),
        opt_fields_view(r.command) == spec_report_of_text(t.command),
        opt_fields_view(r.spells) == spec_report_of_text(t.spells),
        opt_fields_view(r.items) == spec_report_of_text(t.items),
        opt_fields_view(r.combat) == spec_report_of_text(t.combat),
        opt_fields_view(r.site) == spec_report_of_text(t.site),
        opt_fields_view(r.progression) == spec_report_of_text(t.progression),
        opt_fields_view(r.compatibility) == spec_report_of_text(t.compatibility),
        opt_fields_view(r.frontend) == spec_report_of_text(t.frontend),
        opt_fields_view(r.dashboard) == spec_report_of_text(t.dashboard),
        opt_fields_view(r.burnin) == spec_report_of_text(t.burnin),
        opt_fields_view(r.baseline) == spec_report_of_text(t.baseline),
{
    DeviationEvidence {
        environment: report_of_text(&t.environment),
        command: report_of_text(&t.command),
        spells: report_of_text(&t.spells),
        items: report_of_text(&t.items),
        combat: report_of_text(&t.combat),
        site: report_of_text(&t.site),
        progression: report_of_text(&t.progression),
        compatibility: report_of_text(&t.compatibility),
        frontend: report_of_text(&t.frontend),
        dashboard: report_of_text(&t.dashboard),
        burnin: report_of_text(&t.burnin),
        baseline: report_of_text(&t.baseline),
    }
}

// ---------------------------------------------------------------------------
// The quest defect board
// ---------------------------------------------------------------------------

/// What the quest board finds of an artifact, given whether it exists and
/// its text (`None` where it was not read): an artifact that must pass is
/// read and parsed, and the scan fails (`None`) where it could not be read
/// or does not parse.
pub fn quest_scan_of_text(path: String, requires_pass: bool, present: bool, raw: &Option<String>) -> (r: Option<
    QuestArtifactScan,
>)
    ensures
        present && requires_pass ==> (r is Some <==> spec_report_of_text(*raw) is Some),
        !(present && requires_pass) ==> r is Some,
        r matches Some(s) ==> {
            &&& s.path@ == path@
            &&& s.requires_pass == requires_pass
            &&& s.present == present
            &&& opt_fields_view(s.report) == if present && requires_pass {
                spec_report_of_text(*raw)
            } else {
                None
            }
        },
{
    if present && requires_pass {
        match report_of_text(raw) {
            Some(f) => Some(QuestArtifactScan { path, requires_pass, present, report: Some(f) }),
            None => None,
        }
    } else {
        Some(QuestArtifactScan { path, requires_pass, present, report: None })
    }
}

// ---------------------------------------------------------------------------
// The closure runner
// ---------------------------------------------------------------------------

/// A row of the site branch diff, from its JSON text: it must be an object
/// with a text `service`, a flag `pass` and a text `details`.
pub open spec fn spec_diff_row(t: Seq<char>) -> Option<DiffOutcomeView> {
    match json_fields_of(t) {
        Some(fs) => match (spec_lookup(fs, "service"@), spec_lookup(fs, "pass"@), spec_lookup(fs, "details"@)) {
            (Some(FieldView::Text(s)), Some(FieldView::Bool(p)), Some(FieldView::Text(d))) => Some(
                DiffOutcomeView { service: s, pass: p, details: d },
            ),
            _ => None,
        },
        None => None,
    }
}

pub open spec fn spec_diff_row_list(els: Seq<Seq<char>>) -> Option<Seq<DiffOutcomeView>>
    decreases els.len(),
{
    if els.len() == 0 {
        Some(Seq::empty())
    } else {
        match (spec_diff_row_list(els.drop_last()), spec_diff_row(els.last())) {
            (Some(rows), Some(row)) => Some(rows.push(row)),
            _ => None,
        }
    }
}

/// The rows of the site branch diff: none where the report has no `rows`;
/// a `rows` that is not a list of well-formed rows does not decode.
pub open spec fn spec_diff_rows(fs: FieldsView) -> Option<Seq<DiffOutcomeView>> {
    match spec_lookup(fs, "rows"@) {
        None => Some(Seq::empty()),
        Some(FieldView::Array(els)) => spec_diff_row_list(els),
        Some(_) => None,
    }
}

fn diff_row(t: &String) -> (r: Option<DiffOutcome>)
    ensures
        match r {
            Some(d) => spec_diff_row(t@) == Some(diff_outcome_views(seq![d])[0]),
            None => spec_diff_row(t@) is None,
        },
{
    let f = parse_json_fields(t.as_str())?;
    let service = match find_field(&f, "service") {
        Some(i) => match &f.entries[i].1 {
            FieldValue::Text(s) => s.clone(),
            _ => return None,
        },
        None => return None,
    };
    let pass = match find_field(&f, "pass") {
        Some(i) => match &f.entries[i].1 {
            FieldValue::Bool(b) => *b,
            _ => return None,
        },
        None => return None,
    };
    let details = match find_field(&f, "details") {
        Some(i) => match &f.entries[i].1 {
            FieldValue::Text(s) => s.clone(),
            _ => return None,
        },
        None => return None,
    };
    Some(DiffOutcome { service, pass, details })
}

proof fn lemma_row_list_none(els: Seq<Seq<char>>, k: int)
    requires
        0 <= k <= els.len(),
        spec_diff_row_list(els.take(k)) is None,
    ensures
        spec_diff_row_list(els) is None,
    decreases els.len() - k,
{
    if k == els.len() {
        assert(els.take(k) =~= els);
    } else {
        assert(els.take(k + 1).drop_last() =~= els.take(k));
        lemma_row_list_none(els, k + 1);
    }
}

pub open spec fn texts_of(v: Seq<String>) -> Seq<Seq<char>> {
    v.map_values(|e: String| e@)
}

fn diff_rows(f: &JsonFields) -> (r: Option<Vec<DiffOutcome>>)
    ensures
        match r {
            Some(v) => spec_diff_rows(fields_view(*f)) == Some(diff_outcome_views(v@)),
            None => spec_diff_rows(fields_view(*f)) is None,
        },
{
    match find_field(f, "rows") {
        None => {
            let v: Vec<DiffOutcome> = Vec::new();
            assert(diff_outcome_views(v@) =~= Seq::<DiffOutcomeView>::empty());
            Some(v)
        },
        Some(k) => match &f.entries[k].1 {
            FieldValue::Array(els) => {
                let ghost ev = texts_of(els@);
                let mut out: Vec<DiffOutcome> = Vec::new();
                let mut i: usize = 0;
                assert(ev.take(0) =~= Seq::<Seq<char>>::empty());
                assert(diff_outcome_views(out@) =~= Seq::<DiffOutcomeView>::empty());
                while i < els.len()
                    invariant
                        i <= els.len(),
                        ev == texts_of(els@),
                        spec_diff_rows(fields_view(*f)) == spec_diff_row_list(ev),
                        spec_diff_row_list(ev.take(i as int)) == Some(diff_outcome_views(out@)),
                    decreases els.len() - i,
                {
                    assert(ev.take(i + 1).drop_last() =~= ev.take(i as int));
                    assert(ev.take(i + 1).last() == els@[i as int]@);
                    match diff_row(&els[i]) {
                        Some(d) => {
                            let ghost before = diff_outcome_views(out@);
                            out.push(d);
                            assert(diff_outcome_views(out@) =~= before.push(diff_outcome_views(seq![d])[0]));
                        },
                        None => {
                            proof {
                                lemma_row_list_none(ev, i + 1);
                            }
                            return None;
                        },
                    }
                    i = i + 1;
                }
                assert(ev.take(els.len() as int) =~= ev);
                Some(out)
            },
            _ => None,
        },
    }
}

/// A present report must parse: `Some(None)` where there is no text,
/// `Some(Some(fields))` where it parses, `None` where it does not.
pub open spec fn spec_present_report(raw: Option<String>) -> Option<Option<FieldsView>> {
    match raw {
        None => Some(None),
        Some(t) => match json_fields_of(t@) {
            Some(fs) => Some(Some(fs)),
            None => None,
        },
    }
}

fn present_report(raw: &Option<String>) -> (r: Option<Option<JsonFields>>)
    ensures
        match r {
            Some(o) => spec_present_report(*raw) == Some(opt_fields_view(o)),
            None => spec_present_report(*raw) is None,
        },
{
    match raw {
        None => Some(None),
        Some(t) => match parse_json_fields(t.as_str()) {
            Some(f) => Some(Some(f)),
            None => None,
        },
    }
}

pub open spec fn opt_diff_view(o: Option<Vec<DiffOutcome>>) -> Option<Seq<DiffOutcomeView>> {
    match o {
        Some(v) => Some(diff_outcome_views(v@)),
        None => None,
    }
}

/// The closure runner's evidence from the texts of the reports it finds
/// (`None` where a report is absent): the site branch diff's rows, the
/// guild live check, the service blackbox smoke and the certification.
/// A report that is present but does not parse, or a diff whose rows do
/// not decode, fails the reading.
pub fn closure_evidence_of_texts(
    diff: &Option<String>,
    guild: &Option<String>,
    blackbox: &Option<String>,
    certification: &Option<String>,
) -> (r: Option<ClosureEvidence>)
    ensures
        r is Some <==> {
            &&& spec_present_report(*diff) matches Some(d) && (d matches Some(fs) ==> spec_diff_rows(fs) is Some)
            &&& spec_present_report(*guild) is Some
            &&& spec_present_report(*blackbox) is Some
            &&& spec_present_report(*certification) is Some
        },
        r matches Some(e) ==> {
            &&& opt_diff_view(e.diff_rows) == match spec_present_report(*diff) {
                Some(Some(fs)) => spec_diff_rows(fs),
                _ => None,
            }
            &&& spec_present_report(*guild) == Some(opt_fields_view(e.guild_live_check))
            &&& spec_present_report(*blackbox) == Some(opt_fields_view(e.blackbox_smoke))
            &&& spec_present_report(*certification) == Some(opt_fields_view(e.certification))
        },
{
    let diff_report = present_report(diff)?;
    let diff_rows = match &diff_report {
        Some(f) => Some(diff_rows(f)?),
        None => None,
    };
    let guild_live_check = present_report(guild)?;
    let blackbox_smoke = present_report(blackbox)?;
    let certification = present_report(certification)?;
    Some(ClosureEvidence { diff_rows, guild_live_check, blackbox_smoke, certification })
}

// ---------------------------------------------------------------------------
// The runtime user regression smoke
// ---------------------------------------------------------------------------

/// A runtime check row from its JSON text: its text `id` and its flag
/// `passed`; a row that does not parse has neither.
pub open spec fn spec_runtime_row(t: Seq<char>) -> (Option<Seq<char>>, bool) {
    match json_fields_of(t) {
        Some(fs) => (spec_text_of(fs, "id"@), spec_flag_of(fs, "passed"@)),
        None => (None, false),
    }
}

pub open spec fn runtime_row_views(v: Seq<RuntimeRow>) -> Seq<(Option<Seq<char>>, bool)> {
    Seq::new(v.len(), |i: int| (opt_text(v[i].id), v[i].passed))
}

/// The runtime check rows of the inventory contract, where they are a
/// list.
pub open spec fn spec_runtime_rows(fs: FieldsView) -> Option<Seq<(Option<Seq<char>>, bool)>> {
    match spec_lookup(fs, "runtime_checks"@) {
        Some(FieldView::Array(els)) => Some(Seq::new(els.len(), |i: int| spec_runtime_row(els[i]))),
        _ => None,
    }
}

/// The number of elements of list `key`, 0 where it is not a list.
pub open spec fn spec_list_len(fs: FieldsView, key: Seq<char>) -> nat {
    match spec_lookup(fs, key) {
        Some(FieldView::Array(els)) => els.len(),
        _ => 0,
    }
}

fn runtime_row(t: &String) -> (r: RuntimeRow)
    ensures
        (opt_text(r.id), r.passed) == spec_runtime_row(t@),
{
    match parse_json_fields(t.as_str()) {
        Some(f) => RuntimeRow { id: text_field(&f, "id"), passed: bool_field(&f, "passed") },
        None => RuntimeRow { id: None, passed: false },
    }
}

fn runtime_rows(f: &JsonFields) -> (r: Option<Vec<RuntimeRow>>)
    ensures
        match r {
            Some(v) => spec_runtime_rows(fields_view(*f)) == Some(runtime_row_views(v@)),
            None => spec_runtime_rows(fields_view(*f)) is None,
        },
{
    match find_field(f, "runtime_checks") {
        Some(k) => match &f.entries[k].1 {
            FieldValue::Array(els) => {
                let ghost ev = texts_of(els@);
                let mut out: Vec<RuntimeRow> = Vec::new();
                let mut i: usize = 0;
                assert(runtime_row_views(out@) =~= Seq::new(0, |j: int| spec_runtime_row(ev[j])));
                while i < els.len()
                    invariant
                        i <= els.len(),
                        ev == texts_of(els@),
                        out.len() == i,
                        runtime_row_views(out@) == Seq::new(i as nat, |j: int| spec_runtime_row(ev[j])),
                    decreases els.len() - i,
                {
                    let row = runtime_row(&els[i]);
                    let ghost before = out@;
                    out.push(row);
                    assert(ev[i as int] == els@[i as int]@);
                    assert(out@[i as int] == row);
                    assert(forall|j: int| 0 <= j < i ==> out@[j] == before[j]);
                    assert forall|j: int| 0 <= j < i + 1 implies #[trigger] runtime_row_views(out@)[j] == spec_runtime_row(ev[j]) by {
                        if j < i {
                            assert(runtime_row_views(before)[j] == spec_runtime_row(ev[j]));
                        }
                    }
                    assert(runtime_row_views(out@) =~= Seq::new((i + 1) as nat, |j: int| spec_runtime_row(ev[j])));
                    i = i + 1;
                }
                assert(runtime_row_views(out@) =~= Seq::new(ev.len(), |j: int| spec_runtime_row(ev[j])));
                Some(out)
            },
            _ => None,
        },
        None => None,
    }
}

fn list_len(f: &JsonFields, key: &str) -> (r: usize)
    ensures
        r == spec_list_len(fields_view(*f), key@),
{
    match find_field(f, key) {
        Some(i) => match &f.entries[i].1 {
            FieldValue::Array(els) => els.len(),
            _ => 0,
        },
        None => 0,
    }
}

pub open spec fn opt_rows_views(o: Option<Vec<RuntimeRow>>) -> Option<Seq<(Option<Seq<char>>, bool)>> {
    match o {
        Some(v) => Some(runtime_row_views(v@)),
        None => None,
    }
}

/// The evidence of the runtime user regression smoke from the texts of the
/// arena, inventory, service oracle, quest and victory reports; `None`
/// where one of them does not parse.
pub fn runtime_evidence_of_texts(arena: &str, inventory: &str, service: &str, quest: &str, victory: &str) -> (r: Option<
    RuntimeEvidence,
>)
    ensures
        r is Some <==> (json_fields_of(arena@) is Some && json_fields_of(inventory@) is Some && json_fields_of(
            service@,
        ) is Some && json_fields_of(quest@) is Some && json_fields_of(victory@) is Some),
        r matches Some(e) ==> {
            let a = json_fields_of(arena@).unwrap();
            let inv = json_fields_of(inventory@).unwrap();
            let s = json_fields_of(service@).unwrap();
            let q = json_fields_of(quest@).unwrap();
            let v = json_fields_of(victory@).unwrap();
            &&& e.arena_pass == spec_flag_of(a, "pass"@)
            &&& e.arena_opener_dropped == spec_flag_of(a, "opener_dropped"@)
            &&& e.arena_exited_after_opener == spec_flag_of(a, "exited_after_opener"@)
            &&& e.inventory_pass == spec_flag_of(inv, "pass"@)
            &&& opt_rows_views(e.inventory_rows) == spec_runtime_rows(inv)
            &&& e.service_pass == spec_flag_of(s, "pass"@)
            &&& e.service_passed == spec_count_of(s, "passed"@)
            &&& e.service_total == spec_count_of(s, "total"@)
            &&& e.quest_pass == spec_flag_of(q, "pass"@)
            &&& e.quest_steps == spec_list_len(q, "steps"@)
            &&& e.victory_pass == spec_flag_of(v, "pass"@)
            &&& e.victory_passed == spec_count_of(v, "passed"@)
            &&& e.victory_total == spec_count_of(v, "total"@)
        },
{
    let a = parse_json_fields(arena)?;
    let inv = parse_json_fields(inventory)?;
    let s = parse_json_fields(service)?;
    let q = parse_json_fields(quest)?;
    let v = parse_json_fields(victory)?;
    Some(RuntimeEvidence {
        arena_pass: bool_field(&a, "pass"),
        arena_opener_dropped: bool_field(&a, "opener_dropped"),
        arena_exited_after_opener: bool_field(&a, "exited_after_opener"),
        inventory_pass: bool_field(&inv, "pass"),
        inventory_rows: runtime_rows(&inv),
        service_pass: bool_field(&s, "pass"),
        service_passed: usize_field(&s, "passed"),
        service_total: usize_field(&s, "total"),
        quest_pass: bool_field(&q, "pass"),
        quest_steps: list_len(&q, "steps"),
        victory_pass: bool_field(&v, "pass"),
        victory_passed: usize_field(&v, "passed"),
        victory_total: usize_field(&v, "total"),
    })
}

// ---------------------------------------------------------------------------
// The classic gap ledger
// ---------------------------------------------------------------------------

/// What the recovery gap ledger takes of the classic one.
#[derive(Debug, Clone)]
pub struct ClassicGap {
    pub open_p0: u64,
    pub open_p1: u64,
    pub total_open: u64,
    pub items: FieldValue,
}

/// The fields of the classic ledger's `summary`, none where it is not an
/// object.
pub open spec fn spec_summary_of(fs: FieldsView) -> FieldsView {
    match spec_lookup(fs, "summary"@) {
        Some(FieldView::Object(t)) => match json_fields_of(t) {
            Some(sfs) => sfs,
            None => Seq::empty(),
        },
        _ => Seq::empty(),
    }
}

/// The counts of the classic gap ledger's summary (0 where absent) and its
/// items as they are (an empty list where absent).
pub open spec fn spec_classic_gap_ok(fs: FieldsView, g: ClassicGap) -> bool {
    let sum = spec_summary_of(fs);
    &&& g.open_p0 == spec_count_of(sum, "open_p0"@)
    &&& g.open_p1 == spec_count_of(sum, "open_p1"@)
    &&& g.total_open == spec_count_of(sum, "total_open"@)
    &&& g.items@ == match spec_lookup(fs, "items"@) {
        Some(v) => v,
        None => FieldView::Array(Seq::empty()),
    }
}

/// The classic gap ledger read from its text; `None` where it does not
/// parse.
pub fn classic_gap_of_text(raw: &str) -> (r: Option<ClassicGap>)
    ensures
        r is Some <==> json_fields_of(raw@) is Some,
        r matches Some(g) ==> spec_classic_gap_ok(json_fields_of(raw@).unwrap(), g),
{
    let f = parse_json_fields(raw)?;
    let empty = JsonFields { entries: Vec::new() };
    assert(fields_view(empty) =~= Seq::<(Seq<char>, FieldView)>::empty());
    let summary = match find_field(&f, "summary") {
        Some(i) => match &f.entries[i].1 {
            FieldValue::Object(t) => match parse_json_fields(t.as_str()) {
                Some(sf) => sf,
                None => empty,
            },
            _ => empty,
        },
        None => empty,
    };
    let items = match find_field(&f, "items") {
        Some(i) => crate::fields::clone_field(&f.entries[i].1),
        None => {
            let v: Vec<String> = Vec::new();
            let r = FieldValue::Array(v);
            assert(v@.map_values(|e: String| e@) =~= Seq::<Seq<char>>::empty());
            assert(r@ == FieldView::Array(Seq::empty()));
            r
        },
    };
    Some(ClassicGap {
        open_p0: usize_field(&summary, "open_p0"),
        open_p1: usize_field(&summary, "open_p1"),
        total_open: usize_field(&summary, "total_open"),
        items,
    })
}


} // verus!
