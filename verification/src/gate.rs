//! The true-parity gate: progress of each track read from the plan, the
//! artifacts each track requires, and the verdict on completed tracks whose
//! artifacts are missing, failing or stale.
use vstd::prelude::*;

use crate::clock::{now_utc_unix, spec_unix_stamp};
use crate::tally::{keys_ascending, lemma_insert_keeps_ascending};
use crate::text::{
    chars_eq, chars_of, clone_chars, contains, contains_str, copy_range, extend, extend_str, lex_lt,
    lemma_lex_total, lines, spec_before_char, spec_contains, spec_lex_lt, spec_lines,
    spec_starts_with, spec_trim, starts_with_str, string_of, trim, before_char, push_dec, spec_dec,
    spec_join, join,
};

verus! {

broadcast use crate::views::group_view_lemmas;

// ---------------------------------------------------------------------------
// Track progress
// ---------------------------------------------------------------------------

/// Counts per track: items done and items listed.
pub type ProgressCounts = Map<Seq<char>, (nat, nat)>;

/// The track named by a `## Track ` heading: `Some(Some(t))` for a track
/// token `t` (the trimmed text before the first `:`, starting with `T`),
/// `Some(None)` for another heading, `None` for a line that is not one.
pub open spec fn spec_track_heading(line: Seq<char>) -> Option<Option<Seq<char>>> {
    if spec_starts_with(line, "## Track "@) {
        let token = spec_trim(spec_before_char(line.skip(9), ':'));
        if token.len() > 0 && token[0] == 'T' {
            Some(Some(token))
        } else {
            Some(None)
        }
    } else {
        None
    }
}

/// The counts of track `t`, `(0, 0)` when it has none.
pub open spec fn spec_counts_of(m: ProgressCounts, t: Seq<char>) -> (nat, nat) {
    if m.dom().contains(t) {
        m[t]
    } else {
        (0, 0)
    }
}

/// One line of the plan: a heading opens (or closes) a track; under an open
/// track, a line that names one of its items counts a checked or unchecked
/// box.
pub open spec fn spec_progress_step(
    cur: Option<Seq<char>>,
    m: ProgressCounts,
    line: Seq<char>,
) -> (Option<Seq<char>>, ProgressCounts) {
    match spec_track_heading(line) {
        Some(Some(t)) => (Some(t), m.insert(t, spec_counts_of(m, t))),
        Some(None) => (None, m),
        None => match cur {
            None => (cur, m),
            Some(t) => if !spec_contains(line, "`"@ + t + "-"@) {
                (cur, m)
            } else if spec_contains(line, "- [x]"@) {
                (cur, m.insert(t, (spec_counts_of(m, t).0 + 1, spec_counts_of(m, t).1 + 1)))
            } else if spec_contains(line, "- [ ]"@) {
                (cur, m.insert(t, (spec_counts_of(m, t).0, spec_counts_of(m, t).1 + 1)))
            } else {
                (cur, m)
            },
        },
    }
}

/// The open track and the counts after the given lines.
pub open spec fn spec_progress(ls: Seq<Seq<char>>) -> (Option<Seq<char>>, ProgressCounts)
    decreases ls.len(),
{
    if ls.len() == 0 {
        (None, Map::empty())
    } else {
        let (cur, m) = spec_progress(ls.drop_last());
        spec_progress_step(cur, m, ls.last())
    }
}

/// The keys of progress rows.
pub open spec fn progress_keys(rv: Seq<(Seq<char>, nat, nat)>) -> Seq<Seq<char>> {
    rv.map_values(|r: (Seq<char>, nat, nat)| r.0)
}

/// `rv` lists the tracks of `m` once each, in ascending order, with their
/// counts.
pub open spec fn rows_match(rv: Seq<(Seq<char>, nat, nat)>, m: ProgressCounts) -> bool {
    &&& keys_ascending(progress_keys(rv))
    &&& forall|i: int| 0 <= i < rv.len() ==> m.dom().contains(#[trigger] rv[i].0) && m[rv[i].0] == (rv[i].1, rv[i].2)
    &&& forall|k: Seq<char>| m.dom().contains(k) ==> progress_keys(rv).contains(k)
}

pub open spec fn progress_view(v: Seq<(String, (usize, usize))>) -> Seq<(Seq<char>, nat, nat)> {
    v.map_values(|r: (String, (usize, usize))| (r.0@, r.1.0 as nat, r.1.1 as nat))
}

spec fn rows_view(v: Seq<(Vec<char>, usize, usize)>) -> Seq<(Seq<char>, nat, nat)> {
    v.map_values(|r: (Vec<char>, usize, usize)| (r.0@, r.1 as nat, r.2 as nat))
}

fn find_row(rows: &Vec<(Vec<char>, usize, usize)>, key: &Vec<char>) -> (r: Option<usize>)
    ensures
        match r {
            Some(i) => i < rows.len() && rows@[i as int].0@ == key@,
            None => !progress_keys(rows_view(rows@)).contains(key@),
        },
{
    let mut i: usize = 0;
    while i < rows.len()
        invariant
            i <= rows.len(),
            forall|j: int| 0 <= j < i ==> rows@[j].0@ != key@,
        decreases rows.len() - i,
    {
        if chars_eq(&rows[i].0, key) {
            return Some(i);
        }
        i = i + 1;
    }
    assert forall|j: int| 0 <= j < progress_keys(rows_view(rows@)).len() implies progress_keys(rows_view(rows@))[j] != key@ by {
        assert(progress_keys(rows_view(rows@))[j] == rows@[j].0@);
    }
    None
}

/// Counts never exceed `b`, and done never exceeds listed.
pub open spec fn rows_bounded(rv: Seq<(Seq<char>, nat, nat)>, b: nat) -> bool {
    forall|i: int| 0 <= i < rv.len() ==> (#[trigger] rv[i]).1 <= rv[i].2 <= b
}

/// The number of leading rows whose track is below `key`.
fn row_insertion_point(rows: &Vec<(Vec<char>, usize, usize)>, key: &Vec<char>) -> (p: usize)
    ensures
        p <= rows.len(),
        forall|a: int| 0 <= a < p ==> spec_lex_lt(rows@[a].0@, key@),
        p < rows.len() ==> !spec_lex_lt(rows@[p as int].0@, key@),
{
    let mut p: usize = 0;
    while p < rows.len()
        invariant
            p <= rows.len(),
            forall|a: int| 0 <= a < p ==> spec_lex_lt(rows@[a].0@, key@),
        decreases rows.len() - p,
    {
        if !lex_lt(&rows[p].0, key) {
            return p;
        }
        p = p + 1;
    }
    p
}

/// Adds track `key` with no counts where it has no row yet.
fn ensure_row(rows: &mut Vec<(Vec<char>, usize, usize)>, key: &Vec<char>, Ghost(m): Ghost<ProgressCounts>, Ghost(b): Ghost<nat>)
    requires
        rows_match(rows_view(old(rows)@), m),
        rows_bounded(rows_view(old(rows)@), b),
    ensures
        rows_match(rows_view(final(rows)@), m.insert(key@, spec_counts_of(m, key@))),
        rows_bounded(rows_view(final(rows)@), b),
{
    let ghost rv = rows_view(rows@);
    match find_row(rows, key) {
        Some(i) => {
            assert(rv[i as int].0 == key@);
            assert(m.insert(key@, spec_counts_of(m, key@)) =~= m);
            return;
        },
        None => {},
    }
    let p = row_insertion_point(rows, key);
    let ghost ks = progress_keys(rv);
    proof {
        if p < rows.len() {
            assert(ks[p as int] == rows@[p as int].0@);
            assert(ks[p as int] != key@);
            lemma_lex_total(ks[p as int], key@);
        }
        assert forall|a: int| 0 <= a < p implies spec_lex_lt(ks[a], key@) by {
            assert(ks[a] == rows@[a].0@);
        }
        lemma_insert_keeps_ascending(ks, p as int, key@);
        assert(!m.dom().contains(key@));
    }
    rows.insert(p, (clone_chars(key), 0, 0));
    let ghost nv = rows_view(rows@);
    let ghost m2 = m.insert(key@, spec_counts_of(m, key@));
    assert(nv =~= rv.insert(p as int, (key@, 0nat, 0nat)));
    assert(progress_keys(nv) =~= ks.insert(p as int, key@));
    assert forall|i: int| 0 <= i < nv.len() implies m2.dom().contains(#[trigger] nv[i].0) && m2[nv[i].0] == (nv[i].1, nv[i].2) by {
        if i < p {
            assert(nv[i] == rv[i]);
            assert(rv[i].0 != key@) by {
                assert(ks[i] == rv[i].0);
            }
        } else if i > p {
            assert(nv[i] == rv[i - 1]);
            assert(rv[i - 1].0 != key@) by {
                assert(ks[i - 1] == rv[i - 1].0);
            }
        }
    }
    assert forall|k: Seq<char>| m2.dom().contains(k) implies progress_keys(nv).contains(k) by {
        if k == key@ {
            assert(progress_keys(nv)[p as int] == key@);
        } else {
            assert(ks.contains(k));
            let g = choose|g: int| 0 <= g < ks.len() && ks[g] == k;
            if g < p {
                assert(progress_keys(nv)[g] == k);
            } else {
                assert(progress_keys(nv)[g + 1] == k);
            }
        }
    }
    assert forall|i: int| 0 <= i < nv.len() implies (#[trigger] nv[i]).1 <= nv[i].2 <= b by {
        if i < p {
            assert(nv[i] == rv[i]);
        } else if i > p {
            assert(nv[i] == rv[i - 1]);
        }
    }
}

spec fn opt_chars_view(c: Option<Vec<char>>) -> Option<Seq<char>> {
    match c {
        Some(v) => Some(v@),
        None => None,
    }
}

/// Counts one item line of the open track `t`.
fn count_item_line(
    rows: &mut Vec<(Vec<char>, usize, usize)>,
    t: &Vec<char>,
    line: &Vec<char>,
    Ghost(m): Ghost<ProgressCounts>,
    Ghost(b): Ghost<nat>,
)
    requires
        rows_match(rows_view(old(rows)@), m),
        rows_bounded(rows_view(old(rows)@), b),
        m.dom().contains(t@),
        b < usize::MAX,
        !spec_starts_with(line@, "## Track "@),
    ensures
        rows_match(rows_view(final(rows)@), spec_progress_step(Some(t@), m, line@).1),
        rows_bounded(rows_view(final(rows)@), b + 1),
        spec_progress_step(Some(t@), m, line@).1.dom().contains(t@),
        spec_progress_step(Some(t@), m, line@).0 == Some(t@),
{
    let ghost rv = rows_view(rows@);
    let ghost ks = progress_keys(rv);
    let mut needle = chars_of("`");
    extend(&mut needle, t);
    extend_str(&mut needle, "-");
    assert(needle@ == "`"@ + t@ + "-"@);
    let ghost m2 = spec_progress_step(Some(t@), m, line@).1;
    if !contains(line, &needle) {
        assert forall|i: int| 0 <= i < rv.len() implies (#[trigger] rv[i]).1 <= rv[i].2 <= b + 1 by {}
        return;
    }
    let is_done = contains_str(line, "- [x]");
    let is_open = contains_str(line, "- [ ]");
    if !is_done && !is_open {
        assert forall|i: int| 0 <= i < rv.len() implies (#[trigger] rv[i]).1 <= rv[i].2 <= b + 1 by {}
        return;
    }
    assert(ks.contains(t@));
    match find_row(rows, t) {
        Some(k) => {
            let d = rows[k].1;
            let n = rows[k].2;
            assert(rv[k as int] == (t@, d as nat, n as nat));
            assert(rv[k as int].0 == t@);
            assert(m[t@] == (d as nat, n as nat));
            let nd = if is_done {
                d + 1
            } else {
                d
            };
            rows.set(k, (clone_chars(t), nd, n + 1));
            let ghost nv = rows_view(rows@);
            assert(nv =~= rv.update(k as int, (t@, nd as nat, (n + 1) as nat)));
            assert(progress_keys(nv) =~= ks);
            assert forall|i: int| 0 <= i < nv.len() implies m2.dom().contains(#[trigger] nv[i].0) && m2[nv[i].0] == (nv[i].1, nv[i].2) by {
                if i != k {
                    assert(nv[i] == rv[i]);
                    assert(ks[i] != ks[k as int]) by {
                        if i < k {
                            crate::text::lemma_lex_irreflexive(ks[i]);
                        } else {
                            crate::text::lemma_lex_irreflexive(ks[k as int]);
                        }
                    }
                }
            }
            assert forall|i: int| 0 <= i < nv.len() implies (#[trigger] nv[i]).1 <= nv[i].2 <= b + 1 by {
                if i != k {
                    assert(nv[i] == rv[i]);
                }
            }
        },
        None => {
            assert(false);
        },
    }
}

/// Items done and listed per track of a parity plan: a `## Track T...:`
/// heading opens a track, any other such heading closes it, and under an
/// open track each line naming one of its items (`` `T3-...``) counts a
/// checked (`- [x]`) or an unchecked (`- [ ]`) box. Tracks come in
/// ascending order, each once.
pub fn parse_track_progress(plan_raw: &str) -> (r: Vec<(String, (usize, usize))>)
    ensures
        rows_match(progress_view(r@), spec_progress(spec_lines(plan_raw@)).1),
{
    let text = chars_of(plan_raw);
    let ls = lines(&text);
    let ghost lv = ls.deep_view();
    let mut cur: Option<Vec<char>> = None;
    let mut rows: Vec<(Vec<char>, usize, usize)> = Vec::new();
    let mut i: usize = 0;
    while i < ls.len()
        invariant
            i <= ls.len(),
            lv == ls.deep_view(),
            opt_chars_view(cur) == spec_progress(lv.take(i as int)).0,
            cur is Some ==> spec_progress(lv.take(i as int)).1.dom().contains(opt_chars_view(cur)->0),
            rows_match(rows_view(rows@), spec_progress(lv.take(i as int)).1),
            rows_bounded(rows_view(rows@), i as nat),
        decreases ls.len() - i,
    {
        let ghost m = spec_progress(lv.take(i as int)).1;
        let ghost c = spec_progress(lv.take(i as int)).0;
        assert(lv.take(i + 1).drop_last() =~= lv.take(i as int));
        assert(lv[i as int] == ls[i as int]@);
        let line = &ls[i];
        if starts_with_str(line, "## Track ") {
            proof {
                reveal_strlit("## Track ");
            }
            let rest = copy_range(line, 9, line.len());
            assert(rest@ == line@.skip(9));
            let token = trim(&before_char(&rest, ':'));
            if token.len() > 0 && token[0] == 'T' {
                ensure_row(&mut rows, &token, Ghost(m), Ghost(i as nat));
                assert forall|k: int| 0 <= k < rows@.len() implies (#[trigger] rows_view(rows@)[k]).1 <= rows_view(rows@)[k].2 <= i + 1 by {}
                cur = Some(token);
            } else {
                assert forall|k: int| 0 <= k < rows@.len() implies (#[trigger] rows_view(rows@)[k]).1 <= rows_view(rows@)[k].2 <= i + 1 by {}
                cur = None;
            }
        } else {
            match &cur {
                None => {
                    assert forall|k: int| 0 <= k < rows@.len() implies (#[trigger] rows_view(rows@)[k]).1 <= rows_view(rows@)[k].2 <= i + 1 by {}
                },
                Some(t) => {
                    count_item_line(&mut rows, t, line, Ghost(m), Ghost(i as nat));
                },
            }
        }
        i = i + 1;
    }
    assert(lv.take(ls.len() as int) =~= lv);
    let ghost m = spec_progress(lv).1;
    let mut out: Vec<(String, (usize, usize))> = Vec::new();
    let mut k: usize = 0;
    while k < rows.len()
        invariant
            k <= rows.len(),
            progress_view(out@) == rows_view(rows@).take(k as int),
        decreases rows.len() - k,
    {
        let ghost before = progress_view(out@);
        let name = string_of(&rows[k].0);
        out.push((name, (rows[k].1, rows[k].2)));
        assert(progress_view(out@) =~= before.push(rows_view(rows@)[k as int]));
        assert(rows_view(rows@).take(k + 1) =~= rows_view(rows@).take(k as int).push(rows_view(rows@)[k as int]));
        k = k + 1;
    }
    assert(rows_view(rows@).take(rows.len() as int) =~= rows_view(rows@));
    out
}

// ---------------------------------------------------------------------------
// Required artifacts
// ---------------------------------------------------------------------------

pub open spec fn texts_view(v: Seq<String>) -> Seq<Seq<char>> {
    Seq::new(v.len(), |i: int| v[i]@)
}

pub open spec fn requirements_view(v: Seq<(String, Vec<String>)>) -> Seq<(Seq<char>, Seq<Seq<char>>)> {
    Seq::new(v.len(), |i: int| (v[i].0@, texts_view(v[i].1@)))
}

/// The artifacts each track requires, in ascending track order.
pub open spec fn spec_artifact_requirements() -> Seq<(Seq<char>, Seq<Seq<char>>)> {
    seq![
        ("T0"@, seq!["target/true-parity-deviations.json"@, "docs/migration/FULL_OMEGA_TRUE_PARITY_PLAN.md"@, "docs/migration/FULL_OMEGA_TRUE_PARITY_SCORECARD.md"@, "docs/migration/FULL_OMEGA_TRUE_PARITY_CLOSURE_REVIEW.md"@]),
        ("T1"@, seq!["target/true-startup-parity.json"@]),
        ("T10"@, seq!["target/true-frontend-workflow-matrix.json"@]),
        ("T11"@, seq!["target/true-parity-regression-dashboard.json"@, "target/true-burnin-window.json"@]),
        ("T12"@, seq!["target/true-parity-baseline-freeze.json"@, "docs/migration/FULL_OMEGA_TRUE_PARITY_CLOSURE_REVIEW.md"@]),
        ("T2"@, seq!["target/true-environment-transition-matrix.json"@]),
        ("T3"@, seq!["target/true-command-behavior-matrix.json"@]),
        ("T4"@, seq!["target/true-spell-parity-matrix.json"@]),
        ("T5"@, seq!["target/true-item-parity-matrix.json"@]),
        ("T6"@, seq!["target/true-combat-encounter-matrix.json"@]),
        ("T7"@, seq!["target/true-site-economy-social-matrix.json"@]),
        ("T8"@, seq!["target/true-progression-ending-matrix.json"@]),
        ("T9"@, seq!["target/true-compatibility-matrix.json"@]),
    ]
}

fn push_text(out: &mut Vec<String>, s: &str)
    ensures
        texts_view(final(out)@) == texts_view(old(out)@).push(s@),
{
    let ghost before = texts_view(out@);
    out.push(string_of(&chars_of(s)));
    assert(texts_view(out@) =~= before.push(s@));
}

fn push_requirement(out: &mut Vec<(String, Vec<String>)>, track: &str, paths: Vec<String>)
    ensures
        requirements_view(final(out)@) == requirements_view(old(out)@).push((track@, texts_view(paths@))),
{
    let ghost before = requirements_view(out@);
    let ghost pv = texts_view(paths@);
    out.push((string_of(&chars_of(track)), paths));
    assert(requirements_view(out@) =~= before.push((track@, pv)));
}

/// The artifacts each track requires before the parity gate lets it pass.
pub fn artifact_requirements() -> (r: Vec<(String, Vec<String>)>)
    ensures
        requirements_view(r@) == spec_artifact_requirements(),
{
    let ghost target = spec_artifact_requirements();
    let mut out: Vec<(String, Vec<String>)> = Vec::new();
    let mut paths: Vec<String> = Vec::new();
    push_text(&mut paths, "target/true-parity-deviations.json");
    push_text(&mut paths, "docs/migration/FULL_OMEGA_TRUE_PARITY_PLAN.md");
    push_text(&mut paths, "docs/migration/FULL_OMEGA_TRUE_PARITY_SCORECARD.md");
    push_text(&mut paths, "docs/migration/FULL_OMEGA_TRUE_PARITY_CLOSURE_REVIEW.md");
    assert(texts_view(paths@) =~= target[0].1);
    push_requirement(&mut out, "T0", paths);
    assert(requirements_view(out@) =~= target.take(1));
    let mut paths: Vec<String> = Vec::new();
    push_text(&mut paths, "target/true-startup-parity.json");
    assert(texts_view(paths@) =~= target[1].1);
    push_requirement(&mut out, "T1", paths);
    assert(requirements_view(out@) =~= target.take(2));
    let mut paths: Vec<String> = Vec::new();
    push_text(&mut paths, "target/true-frontend-workflow-matrix.json");
    assert(texts_view(paths@) =~= target[2].1);
    push_requirement(&mut out, "T10", paths);
    assert(requirements_view(out@) =~= target.take(3));
    let mut paths: Vec<String> = Vec::new();
    push_text(&mut paths, "target/true-parity-regression-dashboard.json");
    push_text(&mut paths, "target/true-burnin-window.json");
    assert(texts_view(paths@) =~= target[3].1);
    push_requirement(&mut out, "T11", paths);
    assert(requirements_view(out@) =~= target.take(4));
    let mut paths: Vec<String> = Vec::new();
    push_text(&mut paths, "target/true-parity-baseline-freeze.json");
    push_text(&mut paths, "docs/migration/FULL_OMEGA_TRUE_PARITY_CLOSURE_REVIEW.md");
    assert(texts_view(paths@) =~= target[4].1);
    push_requirement(&mut out, "T12", paths);
    assert(requirements_view(out@) =~= target.take(5));
    let mut paths: Vec<String> = Vec::new();
    push_text(&mut paths, "target/true-environment-transition-matrix.json");
    assert(texts_view(paths@) =~= target[5].1);
    push_requirement(&mut out, "T2", paths);
    assert(requirements_view(out@) =~= target.take(6));
    let mut paths: Vec<String> = Vec::new();
    push_text(&mut paths, "target/true-command-behavior-matrix.json");
    assert(texts_view(paths@) =~= target[6].1);
    push_requirement(&mut out, "T3", paths);
    assert(requirements_view(out@) =~= target.take(7));
    let mut paths: Vec<String> = Vec::new();
    push_text(&mut paths, "target/true-spell-parity-matrix.json");
    assert(texts_view(paths@) =~= target[7].1);
    push_requirement(&mut out, "T4", paths);
    assert(requirements_view(out@) =~= target.take(8));
    let mut paths: Vec<String> = Vec::new();
    push_text(&mut paths, "target/true-item-parity-matrix.json");
    assert(texts_view(paths@) =~= target[8].1);
    push_requirement(&mut out, "T5", paths);
    assert(requirements_view(out@) =~= target.take(9));
    let mut paths: Vec<String> = Vec::new();
    push_text(&mut paths, "target/true-combat-encounter-matrix.json");
    assert(texts_view(paths@) =~= target[9].1);
    push_requirement(&mut out, "T6", paths);
    assert(requirements_view(out@) =~= target.take(10));
    let mut paths: Vec<String> = Vec::new();
    push_text(&mut paths, "target/true-site-economy-social-matrix.json");
    assert(texts_view(paths@) =~= target[10].1);
    push_requirement(&mut out, "T7", paths);
    assert(requirements_view(out@) =~= target.take(11));
    let mut paths: Vec<String> = Vec::new();
    push_text(&mut paths, "target/true-progression-ending-matrix.json");
    assert(texts_view(paths@) =~= target[11].1);
    push_requirement(&mut out, "T8", paths);
    assert(requirements_view(out@) =~= target.take(12));
    let mut paths: Vec<String> = Vec::new();
    push_text(&mut paths, "target/true-compatibility-matrix.json");
    assert(texts_view(paths@) =~= target[12].1);
    push_requirement(&mut out, "T9", paths);
    assert(requirements_view(out@) =~= target.take(13));
    assert(target.take(13) =~= target);
    out
}

// ---------------------------------------------------------------------------
// Track verdicts
// ---------------------------------------------------------------------------

/// What was found of one artifact on disk: whether it exists, whether its
/// report passes and whether it is older than the parity gate allows.
#[derive(Debug, Clone)]
pub struct ArtifactProbe {
    pub path: String,
    pub exists: bool,
    pub pass: bool,
    pub stale: bool,
}

pub struct ProbeView {
    pub path: Seq<char>,
    pub exists: bool,
    pub pass: bool,
    pub stale: bool,
}

pub open spec fn probes_view(v: Seq<ArtifactProbe>) -> Seq<ProbeView> {
    Seq::new(v.len(), |i: int| ProbeView { path: v[i].path@, exists: v[i].exists, pass: v[i].pass, stale: v[i].stale })
}

/// The first probe of `path`.
pub open spec fn spec_probe_of(ps: Seq<ProbeView>, path: Seq<char>) -> Option<ProbeView>
    decreases ps.len(),
{
    if ps.len() == 0 {
        None
    } else if ps[0].path == path {
        Some(ps[0])
    } else {
        spec_probe_of(ps.drop_first(), path)
    }
}

/// What can be wrong with a required artifact.
#[derive(Debug, Clone, Copy, PartialEq, Eq, Structural)]
pub enum ArtifactFlaw {
    Missing,
    Failing,
    Stale,
}

/// Whether the artifact at `path` has the flaw; an artifact that was not
/// probed counts as absent.
pub open spec fn spec_has_flaw(ps: Seq<ProbeView>, path: Seq<char>, flaw: ArtifactFlaw) -> bool {
    match spec_probe_of(ps, path) {
        None => flaw == ArtifactFlaw::Missing,
        Some(p) => match flaw {
            ArtifactFlaw::Missing => !p.exists,
            ArtifactFlaw::Failing => p.exists && !p.pass,
            ArtifactFlaw::Stale => p.exists && p.stale,
        },
    }
}

/// The required artifacts with the flaw, in order.
pub open spec fn spec_flawed(req: Seq<Seq<char>>, ps: Seq<ProbeView>, flaw: ArtifactFlaw) -> Seq<Seq<char>>
    decreases req.len(),
{
    if req.len() == 0 {
        Seq::empty()
    } else if spec_has_flaw(ps, req.last(), flaw) {
        spec_flawed(req.drop_last(), ps, flaw).push(req.last())
    } else {
        spec_flawed(req.drop_last(), ps, flaw)
    }
}

/// The artifacts required of `track` (none for a track without an entry).
pub open spec fn spec_required_for(reqs: Seq<(Seq<char>, Seq<Seq<char>>)>, track: Seq<char>) -> Seq<Seq<char>>
    decreases reqs.len(),
{
    if reqs.len() == 0 {
        Seq::empty()
    } else if reqs[0].0 == track {
        reqs[0].1
    } else {
        spec_required_for(reqs.drop_first(), track)
    }
}

#[derive(Debug, Clone)]
pub struct TrackGateStatus {
    pub track: String,
    pub items_total: usize,
    pub items_done: usize,
    pub complete: bool,
    pub required_artifacts: Vec<String>,
    pub missing_artifacts: Vec<String>,
    pub failing_artifacts: Vec<String>,
    pub stale_artifacts: Vec<String>,
}

pub struct TrackView {
    pub track: Seq<char>,
    pub items_total: nat,
    pub items_done: nat,
    pub complete: bool,
    pub required: Seq<Seq<char>>,
    pub missing: Seq<Seq<char>>,
    pub failing: Seq<Seq<char>>,
    pub stale: Seq<Seq<char>>,
}

pub open spec fn track_view(t: TrackGateStatus) -> TrackView {
    TrackView {
        track: t.track@,
        items_total: t.items_total as nat,
        items_done: t.items_done as nat,
        complete: t.complete,
        required: texts_view(t.required_artifacts@),
        missing: texts_view(t.missing_artifacts@),
        failing: texts_view(t.failing_artifacts@),
        stale: texts_view(t.stale_artifacts@),
    }
}

pub open spec fn track_views(v: Seq<TrackGateStatus>) -> Seq<TrackView> {
    Seq::new(v.len(), |i: int| track_view(v[i]))
}

/// The verdict on one track: a track is complete when it lists items and
/// all are done; only a complete track has its artifacts checked.
pub open spec fn spec_track_status(
    track: Seq<char>,
    done: nat,
    total: nat,
    reqs: Seq<(Seq<char>, Seq<Seq<char>>)>,
    ps: Seq<ProbeView>,
) -> TrackView {
    let complete = total > 0 && done == total;
    let required = spec_required_for(reqs, track);
    TrackView {
        track,
        items_total: total,
        items_done: done,
        complete,
        required,
        missing: if complete { spec_flawed(required, ps, ArtifactFlaw::Missing) } else { Seq::empty() },
        failing: if complete { spec_flawed(required, ps, ArtifactFlaw::Failing) } else { Seq::empty() },
        stale: if complete { spec_flawed(required, ps, ArtifactFlaw::Stale) } else { Seq::empty() },
    }
}

/// A complete track fails when one of its artifacts is missing, failing or
/// stale.
pub open spec fn spec_track_failed(t: TrackView) -> bool {
    t.complete && (t.missing.len() > 0 || t.failing.len() > 0 || t.stale.len() > 0)
}

pub open spec fn spec_failed_tracks(ts: Seq<TrackView>) -> nat
    decreases ts.len(),
{
    if ts.len() == 0 {
        0
    } else {
        spec_failed_tracks(ts.drop_last()) + if spec_track_failed(ts.last()) {
            1nat
        } else {
            0nat
        }
    }
}

proof fn lemma_failed_tracks_le(ts: Seq<TrackView>)
    ensures
        spec_failed_tracks(ts) <= ts.len(),
    decreases ts.len(),
{
    if ts.len() > 0 {
        lemma_failed_tracks_le(ts.drop_last());
    }
}

fn probe_of(probes: &Vec<ArtifactProbe>, path: &Vec<char>) -> (r: Option<usize>)
    ensures
        match r {
            Some(i) => i < probes.len() && spec_probe_of(probes_view(probes@), path@) == Some(probes_view(probes@)[i as int]),
            None => spec_probe_of(probes_view(probes@), path@) is None,
        },
{
    let ghost v = probes_view(probes@);
    assert(v.skip(0) =~= v);
    let mut i: usize = 0;
    while i < probes.len()
        invariant
            i <= probes.len(),
            v == probes_view(probes@),
            spec_probe_of(v, path@) == spec_probe_of(v.skip(i as int), path@),
        decreases probes.len() - i,
    {
        assert(v.skip(i as int)[0] == v[i as int]);
        let p = chars_of(probes[i].path.as_str());
        if chars_eq(&p, path) {
            return Some(i);
        }
        assert(v.skip(i as int).drop_first() =~= v.skip(i + 1));
        i = i + 1;
    }
    None
}

fn has_flaw(probes: &Vec<ArtifactProbe>, path: &Vec<char>, flaw: ArtifactFlaw) -> (r: bool)
    ensures
        r == spec_has_flaw(probes_view(probes@), path@, flaw),
{
    match probe_of(probes, path) {
        None => flaw == ArtifactFlaw::Missing,
        Some(i) => {
            let p = &probes[i];
            match flaw {
                ArtifactFlaw::Missing => !p.exists,
                ArtifactFlaw::Failing => p.exists && !p.pass,
                ArtifactFlaw::Stale => p.exists && p.stale,
            }
        },
    }
}

fn flawed(req: &Vec<String>, probes: &Vec<ArtifactProbe>, flaw: ArtifactFlaw) -> (r: Vec<String>)
    ensures
        texts_view(r@) == spec_flawed(texts_view(req@), probes_view(probes@), flaw),
{
    let ghost rv = texts_view(req@);
    let mut out: Vec<String> = Vec::new();
    let mut i: usize = 0;
    while i < req.len()
        invariant
            i <= req.len(),
            rv == texts_view(req@),
            texts_view(out@) == spec_flawed(rv.take(i as int), probes_view(probes@), flaw),
        decreases req.len() - i,
    {
        assert(rv.take(i + 1).drop_last() =~= rv.take(i as int));
        let p = chars_of(req[i].as_str());
        if has_flaw(probes, &p, flaw) {
            let ghost before = texts_view(out@);
            out.push(req[i].clone());
            assert(texts_view(out@) =~= before.push(rv[i as int]));
        }
        i = i + 1;
    }
    assert(rv.take(req.len() as int) =~= rv);
    out
}

fn copy_texts(v: &Vec<String>) -> (r: Vec<String>)
    ensures
        texts_view(r@) == texts_view(v@),
{
    let mut out: Vec<String> = Vec::new();
    let mut i: usize = 0;
    while i < v.len()
        invariant
            i <= v.len(),
            texts_view(out@) == texts_view(v@).take(i as int),
        decreases v.len() - i,
    {
        let ghost before = texts_view(out@);
        out.push(v[i].clone());
        assert(texts_view(out@) =~= before.push(v[i as int]@));
        assert(texts_view(v@).take(i + 1) =~= texts_view(v@).take(i as int).push(v[i as int]@));
        i = i + 1;
    }
    assert(texts_view(v@).take(v.len() as int) =~= texts_view(v@));
    out
}

fn required_for(reqs: &Vec<(String, Vec<String>)>, track: &Vec<char>) -> (r: Vec<String>)
    ensures
        texts_view(r@) == spec_required_for(requirements_view(reqs@), track@),
{
    let ghost v = requirements_view(reqs@);
    assert(v.skip(0) =~= v);
    let mut i: usize = 0;
    while i < reqs.len()
        invariant
            i <= reqs.len(),
            v == requirements_view(reqs@),
            spec_required_for(v, track@) == spec_required_for(v.skip(i as int), track@),
        decreases reqs.len() - i,
    {
        assert(v.skip(i as int)[0] == v[i as int]);
        let t = chars_of(reqs[i].0.as_str());
        if chars_eq(&t, track) {
            return copy_texts(&reqs[i].1);
        }
        assert(v.skip(i as int).drop_first() =~= v.skip(i + 1));
        i = i + 1;
    }
    Vec::new()
}

/// The verdict on one track.
pub fn track_status(
    track: &str,
    done: usize,
    total: usize,
    reqs: &Vec<(String, Vec<String>)>,
    probes: &Vec<ArtifactProbe>,
) -> (r: TrackGateStatus)
    ensures
        track_view(r) == spec_track_status(track@, done as nat, total as nat, requirements_view(reqs@), probes_view(probes@)),
{
    let name = chars_of(track);
    let complete = total > 0 && done == total;
    let required = required_for(reqs, &name);
    let (missing, failing, stale) = if complete {
        (
            flawed(&required, probes, ArtifactFlaw::Missing),
            flawed(&required, probes, ArtifactFlaw::Failing),
            flawed(&required, probes, ArtifactFlaw::Stale),
        )
    } else {
        (Vec::new(), Vec::new(), Vec::new())
    };
    let r = TrackGateStatus {
        track: string_of(&name),
        items_total: total,
        items_done: done,
        complete,
        required_artifacts: required,
        missing_artifacts: missing,
        failing_artifacts: failing,
        stale_artifacts: stale,
    };
    assert(texts_view(r.missing_artifacts@) =~= track_view(r).missing);
    proof {
        if !complete {
            assert(texts_view(r.missing_artifacts@) =~= Seq::<Seq<char>>::empty());
            assert(texts_view(r.failing_artifacts@) =~= Seq::<Seq<char>>::empty());
            assert(texts_view(r.stale_artifacts@) =~= Seq::<Seq<char>>::empty());
        }
    }
    r
}

#[derive(Debug, Clone)]
pub struct TrueParityGateReport {
    pub generated_at_utc: String,
    pub pass: bool,
    pub failed_tracks: usize,
    pub tracks: Vec<TrackGateStatus>,
}

/// The parity gate's verdicts on the tracks of a plan, given the requirements and
/// what was found of the artifacts: one status per track of the plan, in
/// ascending track order; the parity gate passes when no track failed.
pub open spec fn is_gate_report_of(
    r: TrueParityGateReport,
    plan: Seq<char>,
    reqs: Seq<(Seq<char>, Seq<Seq<char>>)>,
    ps: Seq<ProbeView>,
) -> bool {
    let m = spec_progress(spec_lines(plan)).1;
    let tv = track_views(r.tracks@);
    &&& keys_ascending(Seq::new(tv.len(), |i: int| tv[i].track))
    &&& forall|k: Seq<char>| m.dom().contains(k) <==> exists|i: int| 0 <= i < tv.len() && #[trigger] tv[i].track == k
    &&& forall|i: int| 0 <= i < tv.len() ==> #[trigger] tv[i] == spec_track_status(tv[i].track, m[tv[i].track].0, m[tv[i].track].1, reqs, ps)
    &&& r.failed_tracks == spec_failed_tracks(tv)
    &&& r.pass == (r.failed_tracks == 0)
}

/// The parity gate report on a plan, stamped `generated_at_utc`.
pub fn gate_report_at(
    plan_raw: &str,
    reqs: &Vec<(String, Vec<String>)>,
    probes: &Vec<ArtifactProbe>,
    generated_at_utc: String,
) -> (r: TrueParityGateReport)
    ensures
        is_gate_report_of(r, plan_raw@, requirements_view(reqs@), probes_view(probes@)),
        r.generated_at_utc@ == generated_at_utc@,
{
    let progress = parse_track_progress(plan_raw);
    let ghost pv = progress_view(progress@);
    let ghost m = spec_progress(spec_lines(plan_raw@)).1;
    let mut tracks: Vec<TrackGateStatus> = Vec::new();
    let mut failed: usize = 0;
    let mut i: usize = 0;
    while i < progress.len()
        invariant
            i <= progress.len(),
            pv == progress_view(progress@),
            rows_match(pv, m),
            tracks.len() == i,
            forall|k: int| 0 <= k < i ==> #[trigger] track_views(tracks@)[k] == spec_track_status(pv[k].0, pv[k].1, pv[k].2, requirements_view(reqs@), probes_view(probes@)),
            failed == spec_failed_tracks(track_views(tracks@)),
        decreases progress.len() - i,
    {
        let ghost before = track_views(tracks@);
        let done = progress[i].1.0;
        let total = progress[i].1.1;
        let st = track_status(progress[i].0.as_str(), done, total, reqs, probes);
        let bad = st.complete && (st.missing_artifacts.len() > 0 || st.failing_artifacts.len() > 0
            || st.stale_artifacts.len() > 0);
        tracks.push(st);
        assert(track_views(tracks@) =~= before.push(track_view(st)));
        assert(track_views(tracks@).drop_last() =~= before);
        proof {
            lemma_failed_tracks_le(before);
        }
        if bad {
            failed = failed + 1;
        }
        i = i + 1;
    }
    let ghost tv = track_views(tracks@);
    assert(Seq::new(tv.len(), |k: int| tv[k].track) =~= progress_keys(pv));
    assert forall|k: Seq<char>| m.dom().contains(k) <==> exists|j: int| 0 <= j < tv.len() && #[trigger] tv[j].track == k by {
        if m.dom().contains(k) {
            assert(progress_keys(pv).contains(k));
            let j = choose|j: int| 0 <= j < progress_keys(pv).len() && progress_keys(pv)[j] == k;
            assert(tv[j].track == k);
        }
        if exists|j: int| 0 <= j < tv.len() && #[trigger] tv[j].track == k {
            let j = choose|j: int| 0 <= j < tv.len() && #[trigger] tv[j].track == k;
            assert(pv[j].0 == k);
        }
    }
    assert forall|k: int| 0 <= k < tv.len() implies #[trigger] tv[k] == spec_track_status(tv[k].track, m[tv[k].track].0, m[tv[k].track].1, requirements_view(reqs@), probes_view(probes@)) by {
        assert(pv[k].0 == tv[k].track);
        assert(m[pv[k].0] == (pv[k].1, pv[k].2));
    }
    TrueParityGateReport { generated_at_utc, pass: failed == 0, failed_tracks: failed, tracks }
}

/// The parity gate report on a plan, stamped with the current time.
pub fn gate_report(
    plan_raw: &str,
    reqs: &Vec<(String, Vec<String>)>,
    probes: &Vec<ArtifactProbe>,
) -> (r: TrueParityGateReport)
    ensures
        is_gate_report_of(r, plan_raw@, requirements_view(reqs@), probes_view(probes@)),
        exists|secs: u64| r.generated_at_utc@ == spec_unix_stamp(secs as nat),
{
    let stamp = now_utc_unix();
    gate_report_at(plan_raw, reqs, probes, stamp)
}

/// How long ago an artifact was last written, as far as it can be told.
#[derive(Debug, Clone, Copy)]
pub enum ArtifactAge {
    /// Its metadata or its modification time could not be read.
    Unknown,
    /// It was modified after the moment of the check.
    Future,
    /// The time since it was modified.
    Elapsed { secs: u64, nanos: u32 },
}

/// Artifacts older than a day are stale.
pub const GATE_MAX_AGE_SECS: u64 = 86400;

/// Whether an artifact is older than `max_age_secs`: one whose age cannot be
/// told is stale, one modified in the future is not.
pub fn artifact_is_stale(age: &ArtifactAge, max_age_secs: u64) -> (r: bool)
    ensures
        r == match *age {
            ArtifactAge::Unknown => true,
            ArtifactAge::Future => false,
            ArtifactAge::Elapsed { secs, nanos } => secs > max_age_secs || (secs == max_age_secs && nanos > 0),
        },
{
    match age {
        ArtifactAge::Unknown => true,
        ArtifactAge::Future => false,
        ArtifactAge::Elapsed { secs, nanos } => *secs > max_age_secs || (*secs == max_age_secs && *nanos > 0),
    }
}

// ---------------------------------------------------------------------------
// Markdown
// ---------------------------------------------------------------------------

/// A list cell: `-` when empty, else the items joined by `, `.
pub open spec fn spec_list_cell(v: Seq<Seq<char>>) -> Seq<char> {
    if v.len() == 0 {
        "-"@
    } else {
        spec_join(v, ", "@)
    }
}

pub open spec fn spec_gate_row(t: TrackView) -> Seq<char> {
    "| "@ + t.track + " | "@ + spec_dec(t.items_done) + "/"@ + spec_dec(t.items_total) + " | "@
        + (if t.complete { "YES"@ } else { "NO"@ }) + " | "@ + spec_list_cell(t.missing) + " | "@
        + spec_list_cell(t.failing) + " | "@ + spec_list_cell(t.stale) + " |\n"@
}

pub open spec fn spec_gate_rows(ts: Seq<TrackView>) -> Seq<char>
    decreases ts.len(),
{
    if ts.len() == 0 {
        Seq::empty()
    } else {
        spec_gate_rows(ts.drop_last()) + spec_gate_row(ts.last())
    }
}

/// The Markdown rendering of a gate report.
pub open spec fn spec_gate_markdown(r: TrueParityGateReport) -> Seq<char> {
    "# True Parity Gate\n\n- Generated: "@ + r.generated_at_utc@ + "\n- Status: "@
        + (if r.pass { "PASS"@ } else { "FAIL"@ }) + "\n- Failed tracks: "@ + spec_dec(r.failed_tracks as nat)
        + "\n\n| Track | Done/Total | Complete | Missing | Failing | Stale |\n|---|---:|---|---|---|---|\n"@
        + spec_gate_rows(track_views(r.tracks@))
}

fn push_list_cell(out: &mut Vec<char>, v: &Vec<String>)
    ensures
        final(out)@ == old(out)@ + spec_list_cell(texts_view(v@)),
{
    if v.len() == 0 {
        extend_str(out, "-");
    } else {
        let mut parts: Vec<Vec<char>> = Vec::new();
        let mut i: usize = 0;
        while i < v.len()
            invariant
                i <= v.len(),
                parts.deep_view() == texts_view(v@).take(i as int),
            decreases v.len() - i,
        {
            let ghost before = parts.deep_view();
            parts.push(chars_of(v[i].as_str()));
            assert(parts.deep_view() =~= before.push(v[i as int]@));
            assert(texts_view(v@).take(i + 1) =~= texts_view(v@).take(i as int).push(v[i as int]@));
            i = i + 1;
        }
        assert(texts_view(v@).take(v.len() as int) =~= texts_view(v@));
        let sep = chars_of(", ");
        let joined = join(&parts, &sep);
        extend(out, &joined);
    }
}

fn push_gate_row(out: &mut Vec<char>, t: &TrackGateStatus)
    ensures
        final(out)@ == old(out)@ + spec_gate_row(track_view(*t)),
{
    extend_str(out, "| ");
    extend_str(out, t.track.as_str());
    extend_str(out, " | ");
    push_dec(out, t.items_done as u64);
    extend_str(out, "/");
    push_dec(out, t.items_total as u64);
    extend_str(out, " | ");
    if t.complete {
        extend_str(out, "YES");
    } else {
        extend_str(out, "NO");
    }
    extend_str(out, " | ");
    push_list_cell(out, &t.missing_artifacts);
    extend_str(out, " | ");
    push_list_cell(out, &t.failing_artifacts);
    extend_str(out, " | ");
    push_list_cell(out, &t.stale_artifacts);
    extend_str(out, " |\n");
}

pub fn gate_markdown(report: &TrueParityGateReport) -> (r: String)
    ensures
        r@ == spec_gate_markdown(*report),
{
    let mut out: Vec<char> = Vec::new();
    extend_str(&mut out, "# True Parity Gate\n\n- Generated: ");
    extend_str(&mut out, report.generated_at_utc.as_str());
    extend_str(&mut out, "\n- Status: ");
    if report.pass {
        extend_str(&mut out, "PASS");
    } else {
        extend_str(&mut out, "FAIL");
    }
    extend_str(&mut out, "\n- Failed tracks: ");
    push_dec(&mut out, report.failed_tracks as u64);
    extend_str(&mut out, "\n\n| Track | Done/Total | Complete | Missing | Failing | Stale |\n|---|---:|---|---|---|---|\n");
    let ghost head = out@;
    let ghost v = track_views(report.tracks@);
    let mut i: usize = 0;
    while i < report.tracks.len()
        invariant
            i <= report.tracks.len(),
            v == track_views(report.tracks@),
            out@ == head + spec_gate_rows(v.take(i as int)),
        decreases report.tracks.len() - i,
    {
        assert(v.take(i + 1).drop_last() =~= v.take(i as int));
        push_gate_row(&mut out, &report.tracks[i]);
        i = i + 1;
    }
    assert(v.take(report.tracks.len() as int) =~= v);
    string_of(&out)
}

} // verus!
