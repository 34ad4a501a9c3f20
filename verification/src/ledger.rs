//! Ledgers of mechanics: de-duplication, counting by tier and by domain, and
//! the Markdown and YAML reports built from ledgers, parity matrices, defect
//! boards and smoke reports.
use vstd::prelude::*;

use crate::clock::{now_utc_unix, spec_unix_stamp};
use crate::mechanics::{entry_views, CoverageKind, EntryView, MechanicEntry, MechanicTier, MechanicsLedger};
use crate::tally::{is_tally_of, tally, tally_view};
use crate::text::{extend_str, push_dec, spec_dec, string_of};
use crate::text::{chars_of, lemma_lex_irreflexive, lemma_lex_total, lemma_lex_transitive, lex_lt, spec_lex_lt};

verus! {

broadcast use crate::views::group_view_lemmas;

/// A copy of an entry.
pub fn copy_entry(e: &MechanicEntry) -> (r: MechanicEntry)
    ensures
        r@ == e@,
{
    MechanicEntry {
        id: e.id.clone(),
        name: e.name.clone(),
        tier: e.tier,
        domain: e.domain.clone(),
        legacy_anchor: e.legacy_anchor.clone(),
        trigger: e.trigger.clone(),
        preconditions: e.preconditions.clone(),
        state_delta: e.state_delta.clone(),
        outcomes: e.outcomes.clone(),
        side_effects: e.side_effects.clone(),
        coverage_kind: e.coverage_kind,
    }
}

/// Index of the first entry with id `id`, or `s.len()` when there is none.
pub open spec fn first_index_of_id(s: Seq<EntryView>, id: Seq<char>) -> int
    decreases s.len(),
{
    if s.len() == 0 {
        0
    } else {
        let f = first_index_of_id(s.drop_last(), id);
        if f < s.len() - 1 {
            f
        } else if s.last().id == id {
            s.len() - 1
        } else {
            s.len() as int
        }
    }
}

pub proof fn lemma_first_index_of_id(s: Seq<EntryView>, id: Seq<char>)
    ensures
        0 <= first_index_of_id(s, id) <= s.len(),
        first_index_of_id(s, id) < s.len() ==> s[first_index_of_id(s, id)].id == id,
        forall|j: int| 0 <= j < s.len() && s[j].id == id ==> first_index_of_id(s, id) <= j,
    decreases s.len(),
{
    if s.len() > 0 {
        lemma_first_index_of_id(s.drop_last(), id);
        assert forall|j: int| 0 <= j < s.len() && s[j].id == id implies first_index_of_id(s, id)
            <= j by {
            if j < s.len() - 1 {
                assert(s.drop_last()[j] == s[j]);
            }
        }
    }
}

/// Ids strictly ascend, so each id occurs once.
pub open spec fn ids_ascending(es: Seq<EntryView>) -> bool {
    forall|a: int, b: int| 0 <= a < b < es.len() ==> spec_lex_lt(es[a].id, es[b].id)
}

/// `r` holds, in ascending id order, exactly the first entry of `es` for
/// each id that occurs in `es`: every entry of `r` is the first entry of
/// `es` with its id, and every id of `es` occurs in `r`.
#[verifier::opaque]
pub open spec fn is_dedup_of(r: Seq<EntryView>, es: Seq<EntryView>) -> bool {
    &&& ids_ascending(r)
    &&& forall|k: int|
        0 <= k < r.len() ==> first_index_of_id(es, #[trigger] r[k].id) < es.len() && es[first_index_of_id(es, r[k].id)] == r[k]
    &&& forall|i: int| 0 <= i < es.len() ==> first_index_of_id(r, #[trigger] es[i].id) < r.len()
}

/// Number of leading entries of `out` whose id is below `id`, when `out`
/// ascends.
fn insertion_point(out: &Vec<MechanicEntry>, id: &Vec<char>) -> (p: usize)
    requires
        ids_ascending(entry_views(out@)),
    ensures
        p <= out.len(),
        forall|a: int| 0 <= a < p ==> spec_lex_lt(out@[a].id@, id@),
        p < out.len() ==> !spec_lex_lt(out@[p as int].id@, id@),
{
    let mut p: usize = 0;
    while p < out.len()
        invariant
            p <= out.len(),
            forall|a: int| 0 <= a < p ==> spec_lex_lt(out@[a].id@, id@),
        decreases out.len() - p,
    {
        let cur = chars_of(out[p].id.as_str());
        if !lex_lt(&cur, id) {
            return p;
        }
        p = p + 1;
    }
    p
}

/// The first index in a one-longer prefix.
proof fn lemma_first_index_extend(es: Seq<EntryView>, i: int, id: Seq<char>)
    requires
        0 <= i < es.len(),
    ensures
        first_index_of_id(es.take(i + 1), id) == if first_index_of_id(es.take(i), id) < i {
            first_index_of_id(es.take(i), id)
        } else if es[i].id == id {
            i
        } else {
            i + 1
        },
{
    assert(es.take(i + 1).drop_last() == es.take(i));
    lemma_first_index_of_id(es.take(i), id);
}

/// A repeated id leaves the de-duplicated prefix as it is.
proof fn lemma_dedup_skip(ov: Seq<EntryView>, es: Seq<EntryView>, i: int, p: int)
    requires
        0 <= i < es.len(),
        is_dedup_of(ov, es.take(i)),
        0 <= p < ov.len(),
        ov[p].id == es[i].id,
    ensures
        is_dedup_of(ov, es.take(i + 1)),
{
    reveal(is_dedup_of);
    let pre = es.take(i);
    let post = es.take(i + 1);
    assert forall|k: int| 0 <= k < ov.len() implies first_index_of_id(post, #[trigger] ov[k].id)
        < post.len() && post[first_index_of_id(post, ov[k].id)] == ov[k] by {
        lemma_first_index_extend(es, i, ov[k].id);
        lemma_first_index_of_id(pre, ov[k].id);
        let f = first_index_of_id(pre, ov[k].id);
        assert(f < pre.len() && pre[f] == ov[k]);
        assert(post[f] == pre[f]);
    }
    assert forall|j: int| 0 <= j < post.len() implies first_index_of_id(ov, #[trigger] post[j].id)
        < ov.len() by {
        if j < i {
            assert(post[j] == pre[j]);
        } else {
            lemma_first_index_of_id(ov, post[j].id);
        }
    }
}

/// A new id is inserted at its place in the order.
proof fn lemma_dedup_insert(ov: Seq<EntryView>, es: Seq<EntryView>, i: int, p: int)
    requires
        0 <= i < es.len(),
        is_dedup_of(ov, es.take(i)),
        0 <= p <= ov.len(),
        forall|a: int| 0 <= a < p ==> spec_lex_lt(ov[a].id, es[i].id),
        p < ov.len() ==> !spec_lex_lt(ov[p].id, es[i].id) && ov[p].id != es[i].id,
    ensures
        is_dedup_of(ov.insert(p, es[i]), es.take(i + 1)),
{
    reveal(is_dedup_of);
    let e = es[i];
    let pre = es.take(i);
    let post = es.take(i + 1);
    let nv = ov.insert(p, e);
    if p < ov.len() {
        lemma_lex_total(ov[p].id, e.id);
    }
    // No kept entry has the new id.
    assert forall|k: int| 0 <= k < ov.len() implies ov[k].id != e.id by {
        if k < p {
            lemma_lex_irreflexive(e.id);
        } else if k > p {
            lemma_lex_transitive(e.id, ov[p].id, ov[k].id);
            lemma_lex_irreflexive(e.id);
        }
    }
    // So no earlier entry has it either.
    lemma_first_index_of_id(pre, e.id);
    if first_index_of_id(pre, e.id) < i {
        let f = first_index_of_id(pre, e.id);
        assert(pre[f].id == e.id);
        lemma_first_index_of_id(ov, pre[f].id);
        assert(false);
    }
    lemma_first_index_extend(es, i, e.id);
    assert forall|a: int, b: int| 0 <= a < b < nv.len() implies spec_lex_lt(nv[a].id, nv[b].id) by {
        if a < p && b == p {
        } else if a < p && b > p {
            assert(nv[a] == ov[a] && nv[b] == ov[b - 1]);
            if b - 1 > p {
                lemma_lex_transitive(e.id, ov[p].id, ov[b - 1].id);
            }
            lemma_lex_transitive(nv[a].id, e.id, nv[b].id);
        } else if a == p && b > p {
            assert(nv[a] == e && nv[b] == ov[b - 1]);
            if b - 1 > p {
                lemma_lex_transitive(e.id, ov[p].id, ov[b - 1].id);
            }
        } else if a > p {
            assert(nv[a] == ov[a - 1] && nv[b] == ov[b - 1]);
        }
    }
    assert forall|k: int| 0 <= k < nv.len() implies first_index_of_id(post, #[trigger] nv[k].id)
        < post.len() && post[first_index_of_id(post, nv[k].id)] == nv[k] by {
        if k == p {
        } else {
            let ok = if k < p {
                k
            } else {
                k - 1
            };
            assert(nv[k] == ov[ok]);
            lemma_first_index_extend(es, i, ov[ok].id);
            lemma_first_index_of_id(pre, ov[ok].id);
            let f = first_index_of_id(pre, ov[ok].id);
            assert(f < pre.len() && pre[f] == ov[ok]);
            assert(post[f] == pre[f]);
        }
    }
    assert forall|j: int| 0 <= j < post.len() implies first_index_of_id(nv, #[trigger] post[j].id)
        < nv.len() by {
        lemma_first_index_of_id(nv, post[j].id);
        if j < i {
            assert(post[j] == pre[j]);
            lemma_first_index_of_id(ov, pre[j].id);
            let g = first_index_of_id(ov, pre[j].id);
            if g < p {
                assert(nv[g] == ov[g]);
            } else {
                assert(nv[g + 1] == ov[g]);
            }
        } else {
            assert(nv[p] == e);
        }
    }
}

/// The entries with duplicate ids removed, keeping the first of each id, in
/// ascending id order.
pub fn dedup_entries(entries: Vec<MechanicEntry>) -> (r: Vec<MechanicEntry>)
    ensures
        is_dedup_of(entry_views(r@), entry_views(entries@)),
{
    let ghost es = entry_views(entries@);
    let mut out: Vec<MechanicEntry> = Vec::new();
    let mut i: usize = 0;
    proof {
        reveal(is_dedup_of);
    }
    while i < entries.len()
        invariant
            i <= entries.len(),
            es == entry_views(entries@),
            is_dedup_of(entry_views(out@), es.take(i as int)),
        decreases entries.len() - i,
    {
        let id = chars_of(entries[i].id.as_str());
        proof {
            reveal(is_dedup_of);
        }
        let p = insertion_point(&out, &id);
        let ghost ov = entry_views(out@);
        assert(es[i as int] == entries@[i as int]@);
        if p < out.len() && out[p].id == entries[i].id {
            proof {
                lemma_dedup_skip(ov, es, i as int, p as int);
            }
        } else {
            proof {
                lemma_dedup_insert(ov, es, i as int, p as int);
            }
            let item = copy_entry(&entries[i]);
            out.insert(p, item);
            assert(entry_views(out@) =~= ov.insert(p as int, es[i as int]));
        }
        i = i + 1;
    }
    assert(es.take(entries.len() as int) == es);
    out
}

// ---------------------------------------------------------------------------
// Ledgers
// ---------------------------------------------------------------------------

/// Number of entries of tier `t`.
pub open spec fn spec_count_tier(es: Seq<EntryView>, t: MechanicTier) -> nat
    decreases es.len(),
{
    if es.len() == 0 {
        0
    } else {
        spec_count_tier(es.drop_last(), t) + if es.last().tier == t {
            1nat
        } else {
            0nat
        }
    }
}

/// `(t, count)` when tier `t` occurs.
pub open spec fn spec_tier_row(es: Seq<EntryView>, t: MechanicTier) -> Seq<(MechanicTier, nat)> {
    if spec_count_tier(es, t) > 0 {
        seq![(t, spec_count_tier(es, t))]
    } else {
        Seq::empty()
    }
}

/// Counts of the tiers that occur, in tier order.
pub open spec fn spec_tier_counts(es: Seq<EntryView>) -> Seq<(MechanicTier, nat)> {
    spec_tier_row(es, MechanicTier::Main) + spec_tier_row(es, MechanicTier::Secondary)
        + spec_tier_row(es, MechanicTier::Tertiary) + spec_tier_row(es, MechanicTier::Rest)
}

pub open spec fn tier_counts_view(v: Seq<(MechanicTier, usize)>) -> Seq<(MechanicTier, nat)> {
    v.map_values(|p: (MechanicTier, usize)| (p.0, p.1 as nat))
}

pub open spec fn text_counts_view(v: Seq<(String, usize)>) -> Seq<(Seq<char>, nat)> {
    v.map_values(|p: (String, usize)| (p.0@, p.1 as nat))
}

/// The domains of the entries, in entry order.
pub open spec fn entry_domains(es: Seq<EntryView>) -> Seq<Seq<char>> {
    es.map_values(|e: EntryView| e.domain)
}

pub proof fn lemma_count_tier_le(es: Seq<EntryView>, t: MechanicTier)
    ensures
        spec_count_tier(es, t) <= es.len(),
    decreases es.len(),
{
    if es.len() > 0 {
        lemma_count_tier_le(es.drop_last(), t);
    }
}

fn count_tier(entries: &Vec<MechanicEntry>, t: MechanicTier) -> (r: usize)
    ensures
        r == spec_count_tier(entry_views(entries@), t),
{
    let ghost es = entry_views(entries@);
    let mut n: usize = 0;
    let mut i: usize = 0;
    while i < entries.len()
        invariant
            i <= entries.len(),
            es == entry_views(entries@),
            n == spec_count_tier(es.take(i as int), t),
        decreases entries.len() - i,
    {
        assert(es.take(i + 1).drop_last() == es.take(i as int));
        assert(es[i as int] == entries@[i as int]@);
        proof {
            lemma_count_tier_le(es.take(i as int), t);
        }
        if entries[i].tier == t {
            n = n + 1;
        }
        i = i + 1;
    }
    assert(es.take(entries.len() as int) == es);
    n
}

fn push_tier_row(out: &mut Vec<(MechanicTier, usize)>, entries: &Vec<MechanicEntry>, t: MechanicTier)
    ensures
        tier_counts_view(final(out)@) == tier_counts_view(old(out)@) + spec_tier_row(
            entry_views(entries@),
            t,
        ),
{
    let n = count_tier(entries, t);
    let ghost before = tier_counts_view(out@);
    if n > 0 {
        out.push((t, n));
        assert(tier_counts_view(out@) =~= before + spec_tier_row(entry_views(entries@), t));
    } else {
        assert(tier_counts_view(out@) =~= before + spec_tier_row(entry_views(entries@), t));
    }
}


/// Sum of the counts of tier rows.
pub open spec fn spec_tier_sum(rows: Seq<(MechanicTier, nat)>) -> nat
    decreases rows.len(),
{
    if rows.len() == 0 {
        0
    } else {
        spec_tier_sum(rows.drop_last()) + rows.last().1
    }
}

proof fn lemma_tier_sum_concat(a: Seq<(MechanicTier, nat)>, b: Seq<(MechanicTier, nat)>)
    ensures
        spec_tier_sum(a + b) == spec_tier_sum(a) + spec_tier_sum(b),
    decreases b.len(),
{
    if b.len() == 0 {
        assert(a + b =~= a);
    } else {
        assert((a + b).drop_last() =~= a + b.drop_last());
        lemma_tier_sum_concat(a, b.drop_last());
    }
}

proof fn lemma_tier_counts_cover(es: Seq<EntryView>)
    ensures
        spec_count_tier(es, MechanicTier::Main) + spec_count_tier(es, MechanicTier::Secondary)
            + spec_count_tier(es, MechanicTier::Tertiary) + spec_count_tier(es, MechanicTier::Rest)
            == es.len(),
    decreases es.len(),
{
    if es.len() > 0 {
        lemma_tier_counts_cover(es.drop_last());
    }
}

proof fn lemma_tier_row_sum(es: Seq<EntryView>, t: MechanicTier)
    ensures
        spec_tier_sum(spec_tier_row(es, t)) == spec_count_tier(es, t),
{
    let row = spec_tier_row(es, t);
    if spec_count_tier(es, t) > 0 {
        assert(row.drop_last() =~= Seq::<(MechanicTier, nat)>::empty());
        assert(spec_tier_sum(row.drop_last()) == 0);
    }
}

/// The tier rows of some entries count every entry once.
pub proof fn lemma_tier_counts_sum(es: Seq<EntryView>)
    ensures
        spec_tier_sum(spec_tier_counts(es)) == es.len(),
{
    let m = spec_tier_row(es, MechanicTier::Main);
    let s2 = spec_tier_row(es, MechanicTier::Secondary);
    let t = spec_tier_row(es, MechanicTier::Tertiary);
    let r = spec_tier_row(es, MechanicTier::Rest);
    lemma_tier_sum_concat(m, s2);
    lemma_tier_sum_concat(m + s2, t);
    lemma_tier_sum_concat(m + s2 + t, r);
    lemma_tier_row_sum(es, MechanicTier::Main);
    lemma_tier_row_sum(es, MechanicTier::Secondary);
    lemma_tier_row_sum(es, MechanicTier::Tertiary);
    lemma_tier_row_sum(es, MechanicTier::Rest);
    lemma_tier_counts_cover(es);
}

/// `l` counts the entries `es`: its total is their number, its tier rows
/// count them by tier, its domain rows tally their domains, and it keeps
/// them in order.
pub open spec fn is_ledger_of(l: MechanicsLedger, es: Seq<EntryView>) -> bool {
    &&& l.total == es.len()
    &&& tier_counts_view(l.by_tier@) == spec_tier_counts(es)
    &&& is_tally_of(text_counts_view(l.by_domain@), entry_domains(es))
    &&& entry_views(l.entries@) == es
}

/// A ledger of the given entries, stamped `generated_at_utc`.
pub fn build_ledger_at(source: &str, entries: Vec<MechanicEntry>, generated_at_utc: String) -> (r:
    MechanicsLedger)
    ensures
        r.source@ == source@,
        r.generated_at_utc@ == generated_at_utc@,
        is_ledger_of(r, entry_views(entries@)),
{
    let ghost es = entry_views(entries@);
    let mut by_tier: Vec<(MechanicTier, usize)> = Vec::new();
    push_tier_row(&mut by_tier, &entries, MechanicTier::Main);
    push_tier_row(&mut by_tier, &entries, MechanicTier::Secondary);
    push_tier_row(&mut by_tier, &entries, MechanicTier::Tertiary);
    push_tier_row(&mut by_tier, &entries, MechanicTier::Rest);
    assert(tier_counts_view(by_tier@) =~= spec_tier_counts(es));
    let mut domains: Vec<Vec<char>> = Vec::new();
    let mut i: usize = 0;
    while i < entries.len()
        invariant
            i <= entries.len(),
            es == entry_views(entries@),
            domains.deep_view() == entry_domains(es).take(i as int),
        decreases entries.len() - i,
    {
        let ghost before = domains.deep_view();
        let d = chars_of(entries[i].domain.as_str());
        domains.push(d);
        assert(es[i as int] == entries@[i as int]@);
        assert(domains.deep_view() =~= before.push(es[i as int].domain));
        assert(domains.deep_view() =~= entry_domains(es).take(i + 1));
        i = i + 1;
    }
    assert(entry_domains(es).take(entries.len() as int) == entry_domains(es));
    let counts = tally(&domains);
    let mut by_domain: Vec<(String, usize)> = Vec::new();
    let mut k: usize = 0;
    while k < counts.len()
        invariant
            k <= counts.len(),
            text_counts_view(by_domain@) == tally_view(counts@).take(k as int),
        decreases counts.len() - k,
    {
        let ghost before = text_counts_view(by_domain@);
        let name = string_of(&counts[k].0);
        by_domain.push((name, counts[k].1));
        assert(text_counts_view(by_domain@) =~= before.push(tally_view(counts@)[k as int]));
        assert(text_counts_view(by_domain@) =~= tally_view(counts@).take(k + 1));
        k = k + 1;
    }
    assert(tally_view(counts@).take(counts.len() as int) == tally_view(counts@));
    let total = entries.len();
    MechanicsLedger {
        source: string_of(&chars_of(source)),
        generated_at_utc,
        total,
        by_tier,
        by_domain,
        entries,
    }
}

/// A ledger of the given entries, stamped with the current time.
pub fn build_ledger(source: &str, entries: Vec<MechanicEntry>) -> (r: MechanicsLedger)
    ensures
        r.source@ == source@,
        exists|secs: u64| r.generated_at_utc@ == spec_unix_stamp(secs as nat),
        is_ledger_of(r, entry_views(entries@)),
{
    let stamp = now_utc_unix();
    build_ledger_at(source, entries, stamp)
}

// ---------------------------------------------------------------------------
// The runtime's catalog entries
// ---------------------------------------------------------------------------

/// The sizes of the runtime's legacy catalogs.
#[derive(Debug, Clone, Copy)]
pub struct CatalogCounts {
    pub spells: u64,
    pub scrolls: u64,
    pub potions: u64,
    pub weapons: u64,
    pub artifacts: u64,
    pub monsters: u64,
}

pub open spec fn spec_catalog_entry(id: Seq<char>, name: Seq<char>, tier: MechanicTier, domain: Seq<char>, outcomes: Seq<char>, side_effects: Seq<char>) -> EntryView {
    EntryView {
        id,
        name,
        tier,
        domain,
        legacy_anchor: "omega_content::legacy_catalogs"@,
        trigger: "catalog load"@,
        preconditions: "content bootstrap"@,
        state_delta: "none"@,
        outcomes,
        side_effects,
        coverage_kind: CoverageKind::Data,
    }
}

/// The ledger entries of the catalogs: the spells, the items by family and
/// the monsters, each named with its size.
pub open spec fn spec_catalog_entries(c: CatalogCounts) -> Seq<EntryView> {
    seq![
        spec_catalog_entry(
            "rust.catalog.spells"@,
            "spells="@ + spec_dec(c.spells as nat),
            MechanicTier::Main,
            "magic_and_spells"@,
            "spell catalog available"@,
            "spell data drives runtime"@,
        ),
        spec_catalog_entry(
            "rust.catalog.items"@,
            "items_scrolls="@ + spec_dec(c.scrolls as nat) + " potions="@ + spec_dec(c.potions as nat) + " weapons="@
                + spec_dec(c.weapons as nat) + " artifacts="@ + spec_dec(c.artifacts as nat),
            MechanicTier::Main,
            "items_and_equipment"@,
            "item catalog available"@,
            "item data drives runtime"@,
        ),
        spec_catalog_entry(
            "rust.catalog.monsters"@,
            "monsters="@ + spec_dec(c.monsters as nat),
            MechanicTier::Secondary,
            "monster_ai_and_behaviors"@,
            "monster catalog available"@,
            "monster templates drive runtime"@,
        ),
    ]
}

fn catalog_entry(id: &str, name: Vec<char>, tier: MechanicTier, domain: &str, outcomes: &str, side_effects: &str) -> (r: MechanicEntry)
    ensures
        r@ == spec_catalog_entry(id@, name@, tier, domain@, outcomes@, side_effects@),
{
    MechanicEntry {
        id: string_of(&chars_of(id)),
        name: string_of(&name),
        tier,
        domain: string_of(&chars_of(domain)),
        legacy_anchor: string_of(&chars_of("omega_content::legacy_catalogs")),
        trigger: string_of(&chars_of("catalog load")),
        preconditions: string_of(&chars_of("content bootstrap")),
        state_delta: string_of(&chars_of("none")),
        outcomes: string_of(&chars_of(outcomes)),
        side_effects: string_of(&chars_of(side_effects)),
        coverage_kind: CoverageKind::Data,
    }
}

pub fn catalog_entries(c: &CatalogCounts) -> (r: Vec<MechanicEntry>)
    ensures
        entry_views(r@) == spec_catalog_entries(*c),
{
    let mut n1 = chars_of("spells=");
    push_dec(&mut n1, c.spells);
    let e1 = catalog_entry("rust.catalog.spells", n1, MechanicTier::Main, "magic_and_spells", "spell catalog available", "spell data drives runtime");
    let mut n2 = chars_of("items_scrolls=");
    push_dec(&mut n2, c.scrolls);
    extend_str(&mut n2, " potions=");
    push_dec(&mut n2, c.potions);
    extend_str(&mut n2, " weapons=");
    push_dec(&mut n2, c.weapons);
    extend_str(&mut n2, " artifacts=");
    push_dec(&mut n2, c.artifacts);
    let e2 = catalog_entry("rust.catalog.items", n2, MechanicTier::Main, "items_and_equipment", "item catalog available", "item data drives runtime");
    let mut n3 = chars_of("monsters=");
    push_dec(&mut n3, c.monsters);
    let e3 = catalog_entry("rust.catalog.monsters", n3, MechanicTier::Secondary, "monster_ai_and_behaviors", "monster catalog available", "monster templates drive runtime");
    let r = vec![e1, e2, e3];
    assert(entry_views(r@) =~= spec_catalog_entries(*c));
    r
}

} // verus!
