//! The site branch diff: per service, the branches found in the legacy
//! source against those found in the new runtime, and whether the runtime
//! covers at least as many gates and effects.
use vstd::prelude::*;

use crate::tally::{is_sorted_key_set, sorted_key_set};
use crate::text::{
    chars_eq, chars_eq_str, chars_of, ends_with_str, extend, extend_str, push_dec, replace_char_str,
    spec_dec, spec_ends_with, spec_replace_char, string_of,
};
use crate::reports::{push_bool, spec_bool_text};

verus! {

broadcast use crate::views::group_view_lemmas;

/// One branch of a branch contract, as the diff reads it.
#[derive(Debug, Clone)]
pub struct BranchRef {
    pub branch_id: String,
    pub service: String,
    pub kind: String,
}

pub struct BranchRefView {
    pub branch_id: Seq<char>,
    pub service: Seq<char>,
    pub kind: Seq<char>,
}

pub open spec fn branch_ref_views(v: Seq<BranchRef>) -> Seq<BranchRefView> {
    Seq::new(v.len(), |i: int| BranchRefView { branch_id: v[i].branch_id@, service: v[i].service@, kind: v[i].kind@ })
}

/// The branches of one service, in order.
pub open spec fn spec_rows_of(rows: Seq<BranchRefView>, service: Seq<char>) -> Seq<BranchRefView>
    decreases rows.len(),
{
    if rows.len() == 0 {
        Seq::empty()
    } else if rows.last().service == service {
        spec_rows_of(rows.drop_last(), service).push(rows.last())
    } else {
        spec_rows_of(rows.drop_last(), service)
    }
}

/// Number of branches of a kind.
pub open spec fn spec_kind_count(rows: Seq<BranchRefView>, kind: Seq<char>) -> nat
    decreases rows.len(),
{
    if rows.len() == 0 {
        0
    } else {
        spec_kind_count(rows.drop_last(), kind) + if rows.last().kind == kind {
            1nat
        } else {
            0nat
        }
    }
}

/// Whether some branch is an entry branch (its id ends in `/entry`).
pub open spec fn spec_has_entry(rows: Seq<BranchRefView>) -> bool {
    exists|i: int| 0 <= i < rows.len() && spec_ends_with((#[trigger] rows[i]).branch_id, "/entry"@)
}

proof fn lemma_rows_of_len(rows: Seq<BranchRefView>, service: Seq<char>)
    ensures
        spec_rows_of(rows, service).len() <= rows.len(),
    decreases rows.len(),
{
    if rows.len() > 0 {
        lemma_rows_of_len(rows.drop_last(), service);
    }
}

proof fn lemma_kind_count_le(rows: Seq<BranchRefView>, kind: Seq<char>)
    ensures
        spec_kind_count(rows, kind) <= rows.len(),
    decreases rows.len(),
{
    if rows.len() > 0 {
        lemma_kind_count_le(rows.drop_last(), kind);
    }
}

fn rows_of(rows: &Vec<BranchRef>, service: &Vec<char>) -> (r: Vec<BranchRef>)
    ensures
        branch_ref_views(r@) == spec_rows_of(branch_ref_views(rows@), service@),
{
    let ghost v = branch_ref_views(rows@);
    let mut out: Vec<BranchRef> = Vec::new();
    let mut i: usize = 0;
    while i < rows.len()
        invariant
            i <= rows.len(),
            v == branch_ref_views(rows@),
            branch_ref_views(out@) == spec_rows_of(v.take(i as int), service@),
        decreases rows.len() - i,
    {
        assert(v.take(i + 1).drop_last() =~= v.take(i as int));
        let s = chars_of(rows[i].service.as_str());
        if chars_eq(&s, service) {
            let ghost before = branch_ref_views(out@);
            out.push(BranchRef {
                branch_id: rows[i].branch_id.clone(),
                service: rows[i].service.clone(),
                kind: rows[i].kind.clone(),
            });
            assert(branch_ref_views(out@) =~= before.push(v[i as int]));
        }
        i = i + 1;
    }
    assert(v.take(rows.len() as int) =~= v);
    out
}

/// Number of branches of `kind`.
pub fn count_kind(rows: &Vec<BranchRef>, kind: &str) -> (r: usize)
    ensures
        r == spec_kind_count(branch_ref_views(rows@), kind@),
{
    let ghost v = branch_ref_views(rows@);
    let mut n: usize = 0;
    let mut i: usize = 0;
    while i < rows.len()
        invariant
            i <= rows.len(),
            v == branch_ref_views(rows@),
            n == spec_kind_count(v.take(i as int), kind@),
        decreases rows.len() - i,
    {
        assert(v.take(i + 1).drop_last() =~= v.take(i as int));
        proof {
            lemma_kind_count_le(v.take(i as int), kind@);
        }
        let k = chars_of(rows[i].kind.as_str());
        if chars_eq_str(&k, kind) {
            n = n + 1;
        }
        i = i + 1;
    }
    assert(v.take(rows.len() as int) =~= v);
    n
}

fn has_entry(rows: &Vec<BranchRef>) -> (r: bool)
    ensures
        r == spec_has_entry(branch_ref_views(rows@)),
{
    let ghost v = branch_ref_views(rows@);
    let mut i: usize = 0;
    while i < rows.len()
        invariant
            i <= rows.len(),
            v == branch_ref_views(rows@),
            forall|j: int| 0 <= j < i ==> !spec_ends_with(#[trigger] v[j].branch_id, "/entry"@),
        decreases rows.len() - i,
    {
        let id = chars_of(rows[i].branch_id.as_str());
        if ends_with_str(&id, "/entry") {
            assert(spec_ends_with(v[i as int].branch_id, "/entry"@));
            return true;
        }
        i = i + 1;
    }
    false
}

#[derive(Debug, Clone)]
pub struct SiteBranchDiffRow {
    pub service: String,
    pub legacy_total: usize,
    pub rust_total: usize,
    pub legacy_gates: usize,
    pub rust_gates: usize,
    pub legacy_effects: usize,
    pub rust_effects: usize,
    pub pass: bool,
    pub details: String,
}

pub struct DiffRowView {
    pub service: Seq<char>,
    pub legacy_total: nat,
    pub rust_total: nat,
    pub legacy_gates: nat,
    pub rust_gates: nat,
    pub legacy_effects: nat,
    pub rust_effects: nat,
    pub pass: bool,
    pub details: Seq<char>,
}

pub open spec fn diff_row_view(r: SiteBranchDiffRow) -> DiffRowView {
    DiffRowView {
        service: r.service@,
        legacy_total: r.legacy_total as nat,
        rust_total: r.rust_total as nat,
        legacy_gates: r.legacy_gates as nat,
        rust_gates: r.rust_gates as nat,
        legacy_effects: r.legacy_effects as nat,
        rust_effects: r.rust_effects as nat,
        pass: r.pass,
        details: r.details@,
    }
}

pub open spec fn diff_row_views(v: Seq<SiteBranchDiffRow>) -> Seq<DiffRowView> {
    Seq::new(v.len(), |i: int| diff_row_view(v[i]))
}

pub open spec fn spec_failure_details(
    missing_entry: bool,
    lt: nat,
    rt: nat,
    lg: nat,
    rg: nat,
    le: nat,
    re: nat,
) -> Seq<char> {
    "missing_entry="@ + spec_bool_text(missing_entry) + " legacy_total="@ + spec_dec(lt) + " rust_total="@
        + spec_dec(rt) + " legacy_gates="@ + spec_dec(lg) + " rust_gates="@ + spec_dec(rg)
        + " legacy_effects="@ + spec_dec(le) + " rust_effects="@ + spec_dec(re)
}

/// The diff of one service: it passes when the runtime has branches for it
/// and, where the legacy source has some, keeps the entry branch and has at
/// least as many gates and effects.
pub open spec fn spec_diff_row(legacy: Seq<BranchRefView>, rust: Seq<BranchRefView>, service: Seq<char>) -> DiffRowView {
    let l = spec_rows_of(legacy, service);
    let r = spec_rows_of(rust, service);
    let lt = l.len();
    let rt = r.len();
    let lg = spec_kind_count(l, "gate"@);
    let rg = spec_kind_count(r, "gate"@);
    let le = spec_kind_count(l, "effect"@);
    let re = spec_kind_count(r, "effect"@);
    let missing_entry = spec_has_entry(l) && !spec_has_entry(r);
    let pass = if lt == 0 {
        rt > 0
    } else {
        !missing_entry && rt > 0 && rg >= lg && re >= le
    };
    DiffRowView {
        service,
        legacy_total: lt,
        rust_total: rt,
        legacy_gates: lg,
        rust_gates: rg,
        legacy_effects: le,
        rust_effects: re,
        pass,
        details: if pass && lt == 0 {
            "no legacy branch rows in extractor scope; runtime mapped as explicit equivalent"@
        } else if pass {
            "branch coverage aligned"@
        } else {
            spec_failure_details(missing_entry, lt, rt, lg, rg, le, re)
        },
    }
}

fn failure_details(
    missing_entry: bool,
    lt: usize,
    rt: usize,
    lg: usize,
    rg: usize,
    le: usize,
    re: usize,
) -> (r: String)
    ensures
        r@ == spec_failure_details(missing_entry, lt as nat, rt as nat, lg as nat, rg as nat, le as nat, re as nat),
{
    let mut out = chars_of("missing_entry=");
    push_bool(&mut out, missing_entry);
    extend_str(&mut out, " legacy_total=");
    push_dec(&mut out, lt as u64);
    extend_str(&mut out, " rust_total=");
    push_dec(&mut out, rt as u64);
    extend_str(&mut out, " legacy_gates=");
    push_dec(&mut out, lg as u64);
    extend_str(&mut out, " rust_gates=");
    push_dec(&mut out, rg as u64);
    extend_str(&mut out, " legacy_effects=");
    push_dec(&mut out, le as u64);
    extend_str(&mut out, " rust_effects=");
    push_dec(&mut out, re as u64);
    string_of(&out)
}

/// The diff of one service.
pub fn diff_row(legacy: &Vec<BranchRef>, rust: &Vec<BranchRef>, service: &Vec<char>) -> (r: SiteBranchDiffRow)
    ensures
        diff_row_view(r) == spec_diff_row(branch_ref_views(legacy@), branch_ref_views(rust@), service@),
{
    let l = rows_of(legacy, service);
    let r = rows_of(rust, service);
    let lt = l.len();
    let rt = r.len();
    let lg = count_kind(&l, "gate");
    let rg = count_kind(&r, "gate");
    let le = count_kind(&l, "effect");
    let re = count_kind(&r, "effect");
    let missing_entry = has_entry(&l) && !has_entry(&r);
    let pass = if lt == 0 {
        rt > 0
    } else {
        !missing_entry && rt > 0 && rg >= lg && re >= le
    };
    let details = if pass && lt == 0 {
        string_of(&chars_of("no legacy branch rows in extractor scope; runtime mapped as explicit equivalent"))
    } else if pass {
        string_of(&chars_of("branch coverage aligned"))
    } else {
        failure_details(missing_entry, lt, rt, lg, rg, le, re)
    };
    SiteBranchDiffRow {
        service: string_of(service),
        legacy_total: lt,
        rust_total: rt,
        legacy_gates: lg,
        rust_gates: rg,
        legacy_effects: le,
        rust_effects: re,
        pass,
        details,
    }
}

#[derive(Debug, Clone)]
pub struct SiteBranchDiffReport {
    pub total: usize,
    pub passed: usize,
    pub failed: usize,
    pub pass: bool,
    pub rows: Vec<SiteBranchDiffRow>,
}

pub open spec fn ref_services(rows: Seq<BranchRefView>) -> Seq<Seq<char>> {
    rows.map_values(|r: BranchRefView| r.service)
}

pub open spec fn spec_rows_passed(rows: Seq<DiffRowView>) -> nat
    decreases rows.len(),
{
    if rows.len() == 0 {
        0
    } else {
        spec_rows_passed(rows.drop_last()) + if rows.last().pass {
            1nat
        } else {
            0nat
        }
    }
}

proof fn lemma_rows_passed_le(rows: Seq<DiffRowView>)
    ensures
        spec_rows_passed(rows) <= rows.len(),
    decreases rows.len(),
{
    if rows.len() > 0 {
        lemma_rows_passed_le(rows.drop_last());
    }
}

/// `d` diffs the two contracts: one row per service found in either, in
/// ascending service order; it passes when every row does.
pub open spec fn is_site_diff_of(d: SiteBranchDiffReport, legacy: Seq<BranchRefView>, rust: Seq<BranchRefView>) -> bool {
    let rv = diff_row_views(d.rows@);
    &&& is_sorted_key_set(Seq::new(rv.len(), |i: int| rv[i].service), ref_services(legacy) + ref_services(rust))
    &&& forall|i: int| 0 <= i < rv.len() ==> #[trigger] rv[i] == spec_diff_row(legacy, rust, rv[i].service)
    &&& d.total == rv.len()
    &&& d.passed == spec_rows_passed(rv)
    &&& d.failed == d.total - d.passed
    &&& d.pass == (d.failed == 0)
}

proof fn lemma_rows_passed_lt(rows: Seq<DiffRowView>, i: int)
    requires
        0 <= i < rows.len(),
        !rows[i].pass,
    ensures
        spec_rows_passed(rows) < rows.len(),
    decreases rows.len(),
{
    lemma_rows_passed_le(rows.drop_last());
    if i < rows.len() - 1 {
        assert(rows.drop_last()[i] == rows[i]);
        lemma_rows_passed_lt(rows.drop_last(), i);
    }
}

/// A service's row passes exactly when the runtime has branches for it and,
/// where the legacy source has branches for it, the runtime keeps the
/// legacy entry branch and has at least as many gates and at least as many
/// effects. A row with fewer runtime effects (or gates) than legacy ones
/// therefore fails, and so does the whole diff.
pub proof fn law_diff_rows_pass_only_on_coverage(d: SiteBranchDiffReport, legacy: Seq<BranchRefView>, rust: Seq<BranchRefView>)
    requires
        is_site_diff_of(d, legacy, rust),
    ensures
        forall|i: int|
            0 <= i < d.rows.len() ==> {
                let row = #[trigger] diff_row_view(d.rows@[i]);
                row.pass <==> (row.rust_total > 0 && (row.legacy_total > 0 ==> (row.rust_gates >= row.legacy_gates
                    && row.rust_effects >= row.legacy_effects && (spec_has_entry(spec_rows_of(legacy, row.service))
                    ==> spec_has_entry(spec_rows_of(rust, row.service))))))
            },
        (exists|i: int|
            0 <= i < d.rows.len() && #[trigger] diff_row_view(d.rows@[i]).rust_effects < diff_row_view(
                d.rows@[i],
            ).legacy_effects) ==> !d.pass,
        (exists|i: int|
            0 <= i < d.rows.len() && #[trigger] diff_row_view(d.rows@[i]).rust_gates < diff_row_view(
                d.rows@[i],
            ).legacy_gates) ==> !d.pass,
{
    let rv = diff_row_views(d.rows@);
    assert forall|i: int| 0 <= i < d.rows.len() implies {
        let row = #[trigger] diff_row_view(d.rows@[i]);
        row.pass <==> (row.rust_total > 0 && (row.legacy_total > 0 ==> (row.rust_gates >= row.legacy_gates
            && row.rust_effects >= row.legacy_effects && (spec_has_entry(spec_rows_of(legacy, row.service))
            ==> spec_has_entry(spec_rows_of(rust, row.service))))))
    } by {
        assert(rv[i] == diff_row_view(d.rows@[i]));
        assert(rv[i] == spec_diff_row(legacy, rust, rv[i].service));
    }
    if exists|i: int|
        0 <= i < d.rows.len() && #[trigger] diff_row_view(d.rows@[i]).rust_effects < diff_row_view(d.rows@[i]).legacy_effects {
        let i = choose|i: int|
            0 <= i < d.rows.len() && #[trigger] diff_row_view(d.rows@[i]).rust_effects < diff_row_view(d.rows@[i]).legacy_effects;
        assert(rv[i] == spec_diff_row(legacy, rust, rv[i].service));
        lemma_rows_passed_lt(rv, i);
    }
    if exists|i: int|
        0 <= i < d.rows.len() && #[trigger] diff_row_view(d.rows@[i]).rust_gates < diff_row_view(d.rows@[i]).legacy_gates {
        let i = choose|i: int|
            0 <= i < d.rows.len() && #[trigger] diff_row_view(d.rows@[i]).rust_gates < diff_row_view(d.rows@[i]).legacy_gates;
        assert(rv[i] == spec_diff_row(legacy, rust, rv[i].service));
        lemma_rows_passed_lt(rv, i);
    }
}

/// The site branch diff of the legacy and the runtime branch contracts.
pub fn site_branch_diff(legacy: &Vec<BranchRef>, rust: &Vec<BranchRef>) -> (r: SiteBranchDiffReport)
    ensures
        is_site_diff_of(r, branch_ref_views(legacy@), branch_ref_views(rust@)),
{
    let ghost lv = branch_ref_views(legacy@);
    let ghost rv0 = branch_ref_views(rust@);
    let ghost all = ref_services(lv) + ref_services(rv0);
    let mut names: Vec<Vec<char>> = Vec::new();
    let mut i: usize = 0;
    while i < legacy.len()
        invariant
            i <= legacy.len(),
            lv == branch_ref_views(legacy@),
            names.deep_view() == ref_services(lv).take(i as int),
        decreases legacy.len() - i,
    {
        let ghost before = names.deep_view();
        names.push(chars_of(legacy[i].service.as_str()));
        assert(names.deep_view() =~= before.push(lv[i as int].service));
        assert(ref_services(lv).take(i + 1) =~= ref_services(lv).take(i as int).push(lv[i as int].service));
        i = i + 1;
    }
    assert(ref_services(lv).take(legacy.len() as int) =~= ref_services(lv));
    let mut k: usize = 0;
    while k < rust.len()
        invariant
            k <= rust.len(),
            lv == branch_ref_views(legacy@),
            rv0 == branch_ref_views(rust@),
            names.deep_view() == ref_services(lv) + ref_services(rv0).take(k as int),
        decreases rust.len() - k,
    {
        let ghost before = names.deep_view();
        names.push(chars_of(rust[k].service.as_str()));
        assert(names.deep_view() =~= before.push(rv0[k as int].service));
        assert(ref_services(rv0).take(k + 1) =~= ref_services(rv0).take(k as int).push(rv0[k as int].service));
        k = k + 1;
    }
    assert(ref_services(rv0).take(rust.len() as int) =~= ref_services(rv0));
    let services = sorted_key_set(&names);
    let mut rows: Vec<SiteBranchDiffRow> = Vec::new();
    let mut passed: usize = 0;
    let mut j: usize = 0;
    while j < services.len()
        invariant
            j <= services.len(),
            lv == branch_ref_views(legacy@),
            rv0 == branch_ref_views(rust@),
            rows.len() == j,
            forall|a: int| 0 <= a < j ==> (#[trigger] diff_row_views(rows@)[a]).service == services.deep_view()[a]
                && diff_row_views(rows@)[a] == spec_diff_row(lv, rv0, services.deep_view()[a]),
            passed == spec_rows_passed(diff_row_views(rows@)),
        decreases services.len() - j,
    {
        let ghost before = diff_row_views(rows@);
        let row = diff_row(legacy, rust, &services[j]);
        let p = row.pass;
        rows.push(row);
        assert(diff_row_views(rows@) =~= before.push(diff_row_view(row)));
        assert(diff_row_views(rows@).drop_last() =~= before);
        assert(services.deep_view()[j as int] == services[j as int]@);
        proof {
            lemma_rows_passed_le(before);
        }
        if p {
            passed = passed + 1;
        }
        j = j + 1;
    }
    let ghost dv = diff_row_views(rows@);
    assert(Seq::new(dv.len(), |a: int| dv[a].service) =~= services.deep_view());
    proof {
        lemma_rows_passed_le(dv);
    }
    let total = rows.len();
    let failed = total - passed;
    SiteBranchDiffReport { total, passed, failed, pass: failed == 0, rows }
}

pub open spec fn spec_diff_status(pass: bool) -> Seq<char> {
    if pass {
        "PASS"@
    } else {
        "FAIL"@
    }
}

pub open spec fn spec_diff_row_md(r: DiffRowView) -> Seq<char> {
    "| "@ + r.service + " | "@ + spec_dec(r.legacy_total) + " | "@ + spec_dec(r.rust_total) + " | "@
        + spec_dec(r.legacy_gates) + " | "@ + spec_dec(r.rust_gates) + " | "@ + spec_dec(r.legacy_effects)
        + " | "@ + spec_dec(r.rust_effects) + " | "@ + spec_diff_status(r.pass) + " | "@
        + spec_replace_char(r.details, '|', "\\|"@) + " |\n"@
}

pub open spec fn spec_diff_rows_md(rows: Seq<DiffRowView>) -> Seq<char>
    decreases rows.len(),
{
    if rows.len() == 0 {
        Seq::empty()
    } else {
        spec_diff_rows_md(rows.drop_last()) + spec_diff_row_md(rows.last())
    }
}

/// The Markdown rendering of a site branch diff.
pub open spec fn spec_site_diff_markdown(d: SiteBranchDiffReport) -> Seq<char> {
    "# Site Branch Diff\n\n- total: `"@ + spec_dec(d.total as nat) + "`\n- passed: `"@ + spec_dec(d.passed as nat)
        + "`\n- failed: `"@ + spec_dec(d.failed as nat) + "`\n- status: `"@ + spec_diff_status(d.pass)
        + "`\n\n| Service | Legacy Total | Rust Total | Legacy Gates | Rust Gates | Legacy Effects | Rust Effects | Status | Details |\n|---|---:|---:|---:|---:|---:|---:|---|---|\n"@
        + spec_diff_rows_md(diff_row_views(d.rows@))
}

fn push_status(out: &mut Vec<char>, pass: bool)
    ensures
        final(out)@ == old(out)@ + spec_diff_status(pass),
{
    if pass {
        extend_str(out, "PASS");
    } else {
        extend_str(out, "FAIL");
    }
}

fn push_diff_row(out: &mut Vec<char>, r: &SiteBranchDiffRow)
    ensures
        final(out)@ == old(out)@ + spec_diff_row_md(diff_row_view(*r)),
{
    extend_str(out, "| ");
    extend_str(out, r.service.as_str());
    extend_str(out, " | ");
    push_dec(out, r.legacy_total as u64);
    extend_str(out, " | ");
    push_dec(out, r.rust_total as u64);
    extend_str(out, " | ");
    push_dec(out, r.legacy_gates as u64);
    extend_str(out, " | ");
    push_dec(out, r.rust_gates as u64);
    extend_str(out, " | ");
    push_dec(out, r.legacy_effects as u64);
    extend_str(out, " | ");
    push_dec(out, r.rust_effects as u64);
    extend_str(out, " | ");
    push_status(out, r.pass);
    extend_str(out, " | ");
    let d = chars_of(r.details.as_str());
    let escaped = replace_char_str(&d, '|', "\\|");
    extend(out, &escaped);
    extend_str(out, " |\n");
}

pub fn site_diff_markdown(d: &SiteBranchDiffReport) -> (r: String)
    ensures
        r@ == spec_site_diff_markdown(*d),
{
    let mut out: Vec<char> = Vec::new();
    extend_str(&mut out, "# Site Branch Diff\n\n- total: `");
    push_dec(&mut out, d.total as u64);
    extend_str(&mut out, "`\n- passed: `");
    push_dec(&mut out, d.passed as u64);
    extend_str(&mut out, "`\n- failed: `");
    push_dec(&mut out, d.failed as u64);
    extend_str(&mut out, "`\n- status: `");
    push_status(&mut out, d.pass);
    extend_str(
        &mut out,
        "`\n\n| Service | Legacy Total | Rust Total | Legacy Gates | Rust Gates | Legacy Effects | Rust Effects | Status | Details |\n|---|---:|---:|---:|---:|---:|---:|---|---|\n",
    );
    let ghost head = out@;
    let ghost v = diff_row_views(d.rows@);
    let mut i: usize = 0;
    while i < d.rows.len()
        invariant
            i <= d.rows.len(),
            v == diff_row_views(d.rows@),
            out@ == head + spec_diff_rows_md(v.take(i as int)),
        decreases d.rows.len() - i,
    {
        assert(v.take(i + 1).drop_last() =~= v.take(i as int));
        push_diff_row(&mut out, &d.rows[i]);
        i = i + 1;
    }
    assert(v.take(d.rows.len() as int) =~= v);
    string_of(&out)
}

} // verus!
