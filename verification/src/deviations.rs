//! The true-parity deviation ledger: one item per parity track, open until
//! the track's evidence passes.
use vstd::prelude::*;

use crate::clock::{now_utc_unix, spec_unix_stamp};
use crate::fields::{artifact_pass, spec_report_verdict, JsonFields};
use crate::text::{chars_of, extend_str, push_dec, spec_dec, string_of};

verus! {

broadcast use crate::views::group_view_lemmas;

#[derive(Debug, Clone, PartialEq, Eq)]
pub struct DeviationItem {
    pub id: String,
    pub track: String,
    pub severity: String,
    pub status: String,
    pub title: String,
    pub details: String,
}

#[derive(Debug, Clone, Copy, PartialEq, Eq)]
pub struct DeviationSummary {
    pub total: usize,
    pub open: usize,
    pub closed: usize,
}

#[derive(Debug, Clone)]
pub struct DeviationLedger {
    pub generated_at_utc: String,
    pub summary: DeviationSummary,
    pub items: Vec<DeviationItem>,
}

/// The mathematical form of a deviation item.
pub struct DeviationView {
    pub id: Seq<char>,
    pub track: Seq<char>,
    pub severity: Seq<char>,
    pub status: Seq<char>,
    pub title: Seq<char>,
    pub details: Seq<char>,
}

impl View for DeviationItem {
    type V = DeviationView;

    open spec fn view(&self) -> DeviationView {
        DeviationView {
            id: self.id@,
            track: self.track@,
            severity: self.severity@,
            status: self.status@,
            title: self.title@,
            details: self.details@,
        }
    }
}

pub open spec fn deviation_views(items: Seq<DeviationItem>) -> Seq<DeviationView> {
    Seq::new(items.len(), |i: int| items[i]@)
}

/// `CLOSED` when the track passes, `OPEN` otherwise.
pub open spec fn spec_deviation_status(pass: bool) -> Seq<char> {
    if pass {
        "CLOSED"@
    } else {
        "OPEN"@
    }
}

/// The deviation item of a track.
pub open spec fn spec_deviation(
    track: Seq<char>,
    severity: Seq<char>,
    title: Seq<char>,
    details: Seq<char>,
    pass: bool,
) -> DeviationView {
    DeviationView {
        id: "D-"@ + track + "-001"@,
        track,
        severity,
        status: spec_deviation_status(pass),
        title,
        details,
    }
}

pub fn deviation(track: &str, severity: &str, title: &str, details: &str, pass: bool) -> (r: DeviationItem)
    ensures
        r@ == spec_deviation(track@, severity@, title@, details@, pass),
{
    let mut id = chars_of("D-");
    extend_str(&mut id, track);
    extend_str(&mut id, "-001");
    let status = if pass {
        string_of(&chars_of("CLOSED"))
    } else {
        string_of(&chars_of("OPEN"))
    };
    DeviationItem {
        id: string_of(&id),
        track: string_of(&chars_of(track)),
        severity: string_of(&chars_of(severity)),
        status,
        title: string_of(&chars_of(title)),
        details: string_of(&chars_of(details)),
    }
}

/// Number of items whose status is `OPEN`.
pub open spec fn spec_open_count(items: Seq<DeviationView>) -> nat
    decreases items.len(),
{
    if items.len() == 0 {
        0
    } else {
        spec_open_count(items.drop_last()) + if items.last().status == "OPEN"@ {
            1nat
        } else {
            0nat
        }
    }
}

proof fn lemma_open_count_le(items: Seq<DeviationView>)
    ensures
        spec_open_count(items) <= items.len(),
    decreases items.len(),
{
    if items.len() > 0 {
        lemma_open_count_le(items.drop_last());
    }
}

fn open_count(items: &Vec<DeviationItem>) -> (r: usize)
    ensures
        r == spec_open_count(deviation_views(items@)),
{
    let ghost v = deviation_views(items@);
    let mut n: usize = 0;
    let mut i: usize = 0;
    while i < items.len()
        invariant
            i <= items.len(),
            v == deviation_views(items@),
            n == spec_open_count(v.take(i as int)),
        decreases items.len() - i,
    {
        assert(v.take(i + 1).drop_last() =~= v.take(i as int));
        proof {
            lemma_open_count_le(v.take(i as int));
        }
        let s = chars_of(items[i].status.as_str());
        if crate::text::chars_eq_str(&s, "OPEN") {
            n = n + 1;
        }
        i = i + 1;
    }
    assert(v.take(items.len() as int) =~= v);
    n
}

/// `l` holds `items` in order, counts them, and counts the open ones; the
/// rest are closed.
pub open spec fn is_deviation_ledger_of(l: DeviationLedger, items: Seq<DeviationView>) -> bool {
    &&& deviation_views(l.items@) == items
    &&& l.summary.total == items.len()
    &&& l.summary.open == spec_open_count(items)
    &&& l.summary.closed == items.len() - spec_open_count(items)
}

/// The ledger of the given items, stamped `generated_at_utc`.
pub fn ledger_from_items_at(items: Vec<DeviationItem>, generated_at_utc: String) -> (r: DeviationLedger)
    ensures
        is_deviation_ledger_of(r, deviation_views(items@)),
        r.generated_at_utc@ == generated_at_utc@,
{
    let open = open_count(&items);
    proof {
        lemma_open_count_le(deviation_views(items@));
    }
    let total = items.len();
    DeviationLedger {
        generated_at_utc,
        summary: DeviationSummary { total, open, closed: total - open },
        items,
    }
}

/// Reports that close the tracks of the standalone deviation ledger; each
/// is `None` where the artifact could not be read.
pub struct DeviationEvidence {
    pub environment: Option<JsonFields>,
    pub command: Option<JsonFields>,
    pub spells: Option<JsonFields>,
    pub items: Option<JsonFields>,
    pub combat: Option<JsonFields>,
    pub site: Option<JsonFields>,
    pub progression: Option<JsonFields>,
    pub compatibility: Option<JsonFields>,
    pub frontend: Option<JsonFields>,
    pub dashboard: Option<JsonFields>,
    pub burnin: Option<JsonFields>,
    pub baseline: Option<JsonFields>,
}

/// Whether an artifact passes for the deviation ledger.
pub open spec fn spec_artifact_pass(r: Option<JsonFields>) -> bool {
    match r {
        Some(f) => spec_report_verdict(f, false),
        None => false,
    }
}

/// The items of the standalone deviation ledger, one per track from T2 to
/// T12.
pub open spec fn spec_tracked_deviations(e: DeviationEvidence) -> Seq<DeviationView> {
    seq![
        spec_deviation("T2"@, "P0"@, "Environment and transition parity"@,
            "Requires true environment transition matrix PASS."@, spec_artifact_pass(e.environment)),
        spec_deviation("T3"@, "P0"@, "Command behavior parity"@,
            "Requires true command behavior matrix missing/partial/key_conflict all zero."@,
            spec_artifact_pass(e.command)),
        spec_deviation("T4"@, "P0"@, "Spell parity matrix (42)"@,
            "Requires true spell parity matrix PASS with denominator check."@, spec_artifact_pass(e.spells)),
        spec_deviation("T5"@, "P0"@, "Item and inventory parity matrix"@,
            "Requires true item parity matrix PASS."@, spec_artifact_pass(e.items)),
        spec_deviation("T6"@, "P0"@, "Combat/monster/trap parity matrix"@,
            "Requires true combat encounter matrix PASS."@, spec_artifact_pass(e.combat)),
        spec_deviation("T7"@, "P0"@, "City/site/economy/social parity matrix"@,
            "Requires true site economy social matrix PASS."@, spec_artifact_pass(e.site)),
        spec_deviation("T8"@, "P1"@, "Progression/ending parity matrix"@,
            "Requires true progression ending matrix PASS."@, spec_artifact_pass(e.progression)),
        spec_deviation("T9"@, "P1"@, "Compatibility matrix"@,
            "Requires true compatibility matrix PASS."@, spec_artifact_pass(e.compatibility)),
        spec_deviation("T10"@, "P1"@, "Frontend workflow parity"@,
            "Requires true frontend workflow matrix PASS."@, spec_artifact_pass(e.frontend)),
        spec_deviation("T11"@, "P1"@, "Verification hardening"@,
            "Requires true regression dashboard PASS and true burn-in window PASS."@,
            spec_artifact_pass(e.dashboard) && spec_artifact_pass(e.burnin)),
        spec_deviation("T12"@, "P1"@, "Closure baseline freeze"@,
            "Requires true parity baseline freeze PASS."@, spec_artifact_pass(e.baseline)),
    ]
}

fn push_item(out: &mut Vec<DeviationItem>, item: DeviationItem)
    ensures
        deviation_views(final(out)@) == deviation_views(old(out)@).push(item@),
{
    let ghost before = deviation_views(out@);
    out.push(item);
    assert(deviation_views(out@) =~= before.push(item@));
}

/// The items of the standalone deviation ledger.
pub fn tracked_deviations(e: &DeviationEvidence) -> (r: Vec<DeviationItem>)
    ensures
        deviation_views(r@) == spec_tracked_deviations(*e),
{
    let mut out: Vec<DeviationItem> = Vec::new();
    let ghost target = spec_tracked_deviations(*e);
    push_item(&mut out, deviation("T2", "P0", "Environment and transition parity",
        "Requires true environment transition matrix PASS.", artifact_pass(&e.environment)));
    assert(deviation_views(out@) =~= target.take(1));
    push_item(&mut out, deviation("T3", "P0", "Command behavior parity",
        "Requires true command behavior matrix missing/partial/key_conflict all zero.",
        artifact_pass(&e.command)));
    assert(deviation_views(out@) =~= target.take(2));
    push_item(&mut out, deviation("T4", "P0", "Spell parity matrix (42)",
        "Requires true spell parity matrix PASS with denominator check.", artifact_pass(&e.spells)));
    assert(deviation_views(out@) =~= target.take(3));
    push_item(&mut out, deviation("T5", "P0", "Item and inventory parity matrix",
        "Requires true item parity matrix PASS.", artifact_pass(&e.items)));
    assert(deviation_views(out@) =~= target.take(4));
    push_item(&mut out, deviation("T6", "P0", "Combat/monster/trap parity matrix",
        "Requires true combat encounter matrix PASS.", artifact_pass(&e.combat)));
    assert(deviation_views(out@) =~= target.take(5));
    push_item(&mut out, deviation("T7", "P0", "City/site/economy/social parity matrix",
        "Requires true site economy social matrix PASS.", artifact_pass(&e.site)));
    assert(deviation_views(out@) =~= target.take(6));
    push_item(&mut out, deviation("T8", "P1", "Progression/ending parity matrix",
        "Requires true progression ending matrix PASS.", artifact_pass(&e.progression)));
    assert(deviation_views(out@) =~= target.take(7));
    push_item(&mut out, deviation("T9", "P1", "Compatibility matrix",
        "Requires true compatibility matrix PASS.", artifact_pass(&e.compatibility)));
    assert(deviation_views(out@) =~= target.take(8));
    push_item(&mut out, deviation("T10", "P1", "Frontend workflow parity",
        "Requires true frontend workflow matrix PASS.", artifact_pass(&e.frontend)));
    assert(deviation_views(out@) =~= target.take(9));
    let hardening = artifact_pass(&e.dashboard) && artifact_pass(&e.burnin);
    push_item(&mut out, deviation("T11", "P1", "Verification hardening",
        "Requires true regression dashboard PASS and true burn-in window PASS.", hardening));
    assert(deviation_views(out@) =~= target.take(10));
    push_item(&mut out, deviation("T12", "P1", "Closure baseline freeze",
        "Requires true parity baseline freeze PASS.", artifact_pass(&e.baseline)));
    assert(deviation_views(out@) =~= target.take(11));
    assert(target.take(11) =~= target);
    out
}

/// The standalone deviation ledger, stamped with the current time.
pub fn tracked_deviation_ledger(e: &DeviationEvidence) -> (r: DeviationLedger)
    ensures
        is_deviation_ledger_of(r, spec_tracked_deviations(*e)),
        exists|secs: u64| r.generated_at_utc@ == spec_unix_stamp(secs as nat),
{
    let items = tracked_deviations(e);
    let stamp = now_utc_unix();
    ledger_from_items_at(items, stamp)
}

pub open spec fn spec_deviation_row(d: DeviationView) -> Seq<char> {
    "| "@ + d.id + " | "@ + d.track + " | "@ + d.severity + " | "@ + d.status + " | "@ + d.title + " |\n"@
}

pub open spec fn spec_deviation_rows(items: Seq<DeviationView>) -> Seq<char>
    decreases items.len(),
{
    if items.len() == 0 {
        Seq::empty()
    } else {
        spec_deviation_rows(items.drop_last()) + spec_deviation_row(items.last())
    }
}

/// The Markdown rendering of a deviation ledger.
pub open spec fn spec_deviation_markdown(l: DeviationLedger) -> Seq<char> {
    "# True Parity Deviation Ledger\n\n- Generated: "@ + l.generated_at_utc@ + "\n- Total: "@
        + spec_dec(l.summary.total as nat) + "\n- Open: "@ + spec_dec(l.summary.open as nat)
        + "\n- Closed: "@ + spec_dec(l.summary.closed as nat)
        + "\n\n| ID | Track | Severity | Status | Title |\n|---|---|---|---|---|\n"@
        + spec_deviation_rows(deviation_views(l.items@))
}

fn push_deviation_row(out: &mut Vec<char>, d: &DeviationItem)
    ensures
        final(out)@ == old(out)@ + spec_deviation_row(d@),
{
    extend_str(out, "| ");
    extend_str(out, d.id.as_str());
    extend_str(out, " | ");
    extend_str(out, d.track.as_str());
    extend_str(out, " | ");
    extend_str(out, d.severity.as_str());
    extend_str(out, " | ");
    extend_str(out, d.status.as_str());
    extend_str(out, " | ");
    extend_str(out, d.title.as_str());
    extend_str(out, " |\n");
}

pub fn deviation_markdown(ledger: &DeviationLedger) -> (r: String)
    ensures
        r@ == spec_deviation_markdown(*ledger),
{
    let mut out: Vec<char> = Vec::new();
    extend_str(&mut out, "# True Parity Deviation Ledger\n\n- Generated: ");
    extend_str(&mut out, ledger.generated_at_utc.as_str());
    extend_str(&mut out, "\n- Total: ");
    push_dec(&mut out, ledger.summary.total as u64);
    extend_str(&mut out, "\n- Open: ");
    push_dec(&mut out, ledger.summary.open as u64);
    extend_str(&mut out, "\n- Closed: ");
    push_dec(&mut out, ledger.summary.closed as u64);
    extend_str(&mut out, "\n\n| ID | Track | Severity | Status | Title |\n|---|---|---|---|---|\n");
    let ghost head = out@;
    let ghost v = deviation_views(ledger.items@);
    let mut i: usize = 0;
    while i < ledger.items.len()
        invariant
            i <= ledger.items.len(),
            v == deviation_views(ledger.items@),
            out@ == head + spec_deviation_rows(v.take(i as int)),
        decreases ledger.items.len() - i,
    {
        assert(v.take(i + 1).drop_last() =~= v.take(i as int));
        push_deviation_row(&mut out, &ledger.items[i]);
        i = i + 1;
    }
    assert(v.take(ledger.items.len() as int) =~= v);
    string_of(&out)
}

} // verus!
