//! Properties that hold of every result of the library's operations, each
//! stated over the same views and spec functions as the operations' own
//! contracts.
use vstd::prelude::*;

use crate::ledger::{first_index_of_id, ids_ascending, is_dedup_of, lemma_first_index_of_id, is_ledger_of, lemma_tier_counts_sum, spec_tier_sum, tier_counts_view, text_counts_view};
use crate::mechanics::{spec_canonical_key, spec_id_char, spec_normalize_id_token, EntryView, MechanicsLedger};
use crate::reports::{spec_escape_yaml, spec_sanitize_table};
use crate::replay::{is_dashboard_of, lemma_count_all, lemma_count_le, lemma_count_mono, lemma_count_split, rollup_keys, selects, spec_count, spec_families, RegressionDashboard, ReplayScenarioResult, Rollup, Selector, is_normalized_metadata, spec_non_blank, string_views, FixtureMetadata};
use crate::text::{spec_count_char, spec_is_whitespace, spec_replace_char, spec_trim, spec_trim_end, spec_trim_start, lemma_lex_asymmetric, lemma_lex_irreflexive, spec_lex_lt};
use crate::tally::{keys_ascending, lemma_sum_counts_total, lemma_tally_sum, spec_count_key, spec_sum_counts, spec_tally_sum};

verus! {

/// In a ledger, the counts by tier add up to the total, and so do the
/// counts by domain.
pub proof fn law_ledger_counts_add_up(l: MechanicsLedger, es: Seq<EntryView>)
    requires
        is_ledger_of(l, es),
    ensures
        spec_tier_sum(tier_counts_view(l.by_tier@)) == l.total,
        spec_tally_sum(text_counts_view(l.by_domain@)) == l.total,
{
    lemma_tier_counts_sum(es);
    lemma_tally_sum(text_counts_view(l.by_domain@), crate::ledger::entry_domains(es));
}

/// A selector counts every scenario exactly when it takes in each of them.
pub proof fn lemma_count_full(ss: Seq<ReplayScenarioResult>, sel: Selector)
    ensures
        spec_count(ss, sel) == ss.len() <==> forall|i: int| 0 <= i < ss.len() ==> selects(sel, #[trigger] ss[i]),
    decreases ss.len(),
{
    if ss.len() > 0 {
        let front = ss.drop_last();
        lemma_count_full(front, sel);
        lemma_count_le(front, sel);
        if forall|i: int| 0 <= i < ss.len() ==> selects(sel, #[trigger] ss[i]) {
            assert forall|i: int| 0 <= i < front.len() implies selects(sel, #[trigger] front[i]) by {
                assert(front[i] == ss[i]);
            }
            assert(selects(sel, ss[ss.len() - 1]));
        }
        if spec_count(ss, sel) == ss.len() {
            assert forall|i: int| 0 <= i < ss.len() implies selects(sel, #[trigger] ss[i]) by {
                if i < ss.len() - 1 {
                    assert(front[i] == ss[i]);
                }
            }
        }
    }
}

/// In every dashboard the passed and the failed scenarios make up the
/// total, and so do the active and the inactive ones; the passed scenarios
/// are the active ones that passed and the inactive ones that passed, and
/// the failures split the same way; no scenario failed exactly when every
/// scenario passed; the pass rate is at most 100.00%; and the critical-path
/// scenarios are some of all scenarios, split into passed and failed.
pub proof fn law_dashboard_accounting(d: RegressionDashboard, ss: Seq<ReplayScenarioResult>)
    requires
        is_dashboard_of(d, ss),
    ensures
        d.passed + d.failed == d.total,
        d.active_total + d.inactive_total == d.total,
        d.active_passed + d.inactive_passed == d.passed,
        d.failed_active + d.failed_inactive == d.failed,
        d.failed == 0 <==> forall|i: int| 0 <= i < ss.len() ==> (#[trigger] ss[i]).passed,
        d.pass_rate_percent_x100 <= 10000,
        d.total > 0 && d.failed == 0 ==> d.pass_rate_percent_x100 == 10000,
        d.critical_path_passed + d.critical_path_failed == d.critical_path_total,
        d.critical_path_total <= d.total,
{
    lemma_count_all(ss);
    lemma_count_split(ss, Selector::Active, Selector::Inactive, Selector::All);
    lemma_count_split(ss, Selector::ActivePassed, Selector::InactivePassed, Selector::Passed);
    lemma_count_mono(ss, Selector::InactivePassed, Selector::Inactive);
    lemma_count_le(ss, Selector::Passed);
    lemma_count_full(ss, Selector::Passed);
    lemma_count_le(ss, Selector::Tagged(crate::replay::critical_path_tag()));
    lemma_count_mono(
        ss,
        Selector::TaggedPassed(crate::replay::critical_path_tag()),
        Selector::Tagged(crate::replay::critical_path_tag()),
    );
    let p = d.passed as int;
    let t = d.total as int;
    if t > 0 {
        assert((p * 10000) / t <= 10000) by (nonlinear_arith)
            requires
                0 <= p <= t,
                t > 0,
        ;
        if p == t {
            assert((p * 10000) / t == 10000) by (nonlinear_arith)
                requires
                    p == t,
                    t > 0,
            ;
        }
    }
}

/// Scenarios of a family are the occurrences of the family among the
/// scenarios' families.
proof fn lemma_family_count(ss: Seq<ReplayScenarioResult>, f: Seq<char>)
    ensures
        spec_count(ss, Selector::Family(f)) == spec_count_key(spec_families(ss), f),
    decreases ss.len(),
{
    if ss.len() > 0 {
        assert(spec_families(ss).drop_last() =~= spec_families(ss.drop_last()));
        lemma_family_count(ss.drop_last(), f);
    }
}

/// Sum of the totals of some rollups.
pub open spec fn spec_rollup_total_sum(r: Seq<Rollup>) -> nat
    decreases r.len(),
{
    if r.len() == 0 {
        0
    } else {
        spec_rollup_total_sum(r.drop_last()) + r.last().total as nat
    }
}

proof fn lemma_rollup_sum_is_sum_counts(r: Seq<Rollup>, ss: Seq<ReplayScenarioResult>)
    requires
        forall|k: int| 0 <= k < r.len() ==> (#[trigger] r[k]).total == spec_count(ss, Selector::Family(r[k].key@)),
    ensures
        spec_rollup_total_sum(r) == spec_sum_counts(rollup_keys(r), spec_families(ss)),
    decreases r.len(),
{
    if r.len() > 0 {
        let front = r.drop_last();
        assert forall|k: int| 0 <= k < front.len() implies (#[trigger] front[k]).total == spec_count(ss, Selector::Family(front[k].key@)) by {
            assert(front[k] == r[k]);
        }
        lemma_rollup_sum_is_sum_counts(front, ss);
        assert(rollup_keys(r).drop_last() =~= rollup_keys(front));
        let last = r[r.len() - 1];
        assert(last.total == spec_count(ss, Selector::Family(last.key@)));
        lemma_family_count(ss, last.key@);
    }
}

/// Every scenario belongs to exactly one family, so the totals of the
/// family rollups add up to the number of scenarios; in every rollup, by
/// tag or by family, the passed and the failed scenarios make up its total,
/// which is at most the number of scenarios.
pub proof fn law_rollups_accounting(d: RegressionDashboard, ss: Seq<ReplayScenarioResult>)
    requires
        is_dashboard_of(d, ss),
    ensures
        spec_rollup_total_sum(d.family_rollups@) == d.total,
        forall|k: int| 0 <= k < d.family_rollups@.len() ==> {
            let r = #[trigger] d.family_rollups@[k];
            r.passed + r.failed == r.total && r.total <= d.total
        },
        forall|k: int| 0 <= k < d.tag_rollups@.len() ==> {
            let r = #[trigger] d.tag_rollups@[k];
            r.passed + r.failed == r.total && r.total <= d.total
        },
{
    let fr = d.family_rollups@;
    let tr = d.tag_rollups@;
    assert forall|k: int| 0 <= k < fr.len() implies (#[trigger] fr[k]).total == spec_count(ss, Selector::Family(fr[k].key@)) by {
        assert(fr[k].key@ == fr[k].key@);
    }
    lemma_rollup_sum_is_sum_counts(fr, ss);
    assert forall|i: int| 0 <= i < spec_families(ss).len() implies rollup_keys(fr).contains(#[trigger] spec_families(ss)[i]) by {}
    lemma_sum_counts_total(rollup_keys(fr), spec_families(ss));
    assert forall|k: int| 0 <= k < fr.len() implies {
        let r = #[trigger] fr[k];
        r.passed + r.failed == r.total && r.total <= d.total
    } by {
        let key = fr[k].key@;
        lemma_count_le(ss, Selector::Family(key));
        lemma_count_mono(ss, Selector::FamilyPassed(key), Selector::Family(key));
    }
    assert forall|k: int| 0 <= k < tr.len() implies {
        let r = #[trigger] tr[k];
        r.passed + r.failed == r.total && r.total <= d.total
    } by {
        let key = tr[k].key@;
        lemma_count_le(ss, Selector::Tagged(key));
        lemma_count_mono(ss, Selector::TaggedPassed(key), Selector::Tagged(key));
    }
}


/// Two id-ascending lists of entries with the same entries are equal.
proof fn lemma_ascending_same_entries(a: Seq<EntryView>, b: Seq<EntryView>)
    requires
        ids_ascending(a),
        ids_ascending(b),
        forall|k: int| 0 <= k < a.len() ==> b.contains(#[trigger] a[k]),
        forall|k: int| 0 <= k < b.len() ==> a.contains(#[trigger] b[k]),
    ensures
        a == b,
    decreases a.len() + b.len(),
{
    if a.len() == 0 {
        if b.len() > 0 {
            assert(a.contains(b[0]));
        }
        assert(a =~= b);
    } else if b.len() == 0 {
        assert(b.contains(a[0]));
    } else {
        assert(b.contains(a[0]));
        let j = choose|j: int| 0 <= j < b.len() && b[j] == a[0];
        assert(a.contains(b[0]));
        let i = choose|i: int| 0 <= i < a.len() && a[i] == b[0];
        if j > 0 {
            assert(spec_lex_lt(b[0].id, b[j].id));
            if i > 0 {
                assert(spec_lex_lt(a[0].id, a[i].id));
                lemma_lex_asymmetric(b[0].id, a[0].id);
            } else {
                lemma_lex_irreflexive(b[0].id);
            }
        }
        assert(a[0] == b[0]);
        let a2 = a.drop_first();
        let b2 = b.drop_first();
        assert(ids_ascending(a2)) by {
            assert forall|x: int, y: int| 0 <= x < y < a2.len() implies spec_lex_lt(a2[x].id, a2[y].id) by {
                assert(a2[x] == a[x + 1] && a2[y] == a[y + 1]);
            }
        }
        assert(ids_ascending(b2)) by {
            assert forall|x: int, y: int| 0 <= x < y < b2.len() implies spec_lex_lt(b2[x].id, b2[y].id) by {
                assert(b2[x] == b[x + 1] && b2[y] == b[y + 1]);
            }
        }
        assert forall|k: int| 0 <= k < a2.len() implies b2.contains(#[trigger] a2[k]) by {
            assert(a2[k] == a[k + 1]);
            assert(b.contains(a[k + 1]));
            let g = choose|g: int| 0 <= g < b.len() && b[g] == a[k + 1];
            assert(spec_lex_lt(a[0].id, a[k + 1].id));
            if g == 0 {
                lemma_lex_irreflexive(a[0].id);
            }
            assert(b2[g - 1] == b[g]);
        }
        assert forall|k: int| 0 <= k < b2.len() implies a2.contains(#[trigger] b2[k]) by {
            assert(b2[k] == b[k + 1]);
            assert(a.contains(b[k + 1]));
            let g = choose|g: int| 0 <= g < a.len() && a[g] == b[k + 1];
            assert(spec_lex_lt(b[0].id, b[k + 1].id));
            if g == 0 {
                lemma_lex_irreflexive(b[0].id);
            }
            assert(a2[g - 1] == a[g]);
        }
        lemma_ascending_same_entries(a2, b2);
        assert(a =~= seq![a[0]] + a2);
        assert(b =~= seq![b[0]] + b2);
    }
}

/// Every entry of a de-duplication of `es` occurs in any other
/// de-duplication of `es`.
proof fn lemma_dedup_entries_shared(r1: Seq<EntryView>, r2: Seq<EntryView>, es: Seq<EntryView>)
    requires
        is_dedup_of(r1, es),
        is_dedup_of(r2, es),
    ensures
        forall|k: int| 0 <= k < r1.len() ==> r2.contains(#[trigger] r1[k]),
{
    reveal(is_dedup_of);
    assert forall|k: int| 0 <= k < r1.len() implies r2.contains(#[trigger] r1[k]) by {
        let id = r1[k].id;
        let f = first_index_of_id(es, id);
        lemma_first_index_of_id(es, id);
        assert(f < es.len() && es[f] == r1[k]);
        assert(first_index_of_id(r2, es[f].id) < r2.len());
        let g = first_index_of_id(r2, id);
        lemma_first_index_of_id(r2, id);
        assert(r2[g].id == id);
        assert(first_index_of_id(es, r2[g].id) < es.len() && es[first_index_of_id(es, r2[g].id)] == r2[g]);
    }
}

/// The de-duplication of a list of entries is determined by the list: any
/// two results for the same list are equal.
pub proof fn law_dedup_determined(r1: Seq<EntryView>, r2: Seq<EntryView>, es: Seq<EntryView>)
    requires
        is_dedup_of(r1, es),
        is_dedup_of(r2, es),
    ensures
        r1 == r2,
{
    lemma_dedup_entries_shared(r1, r2, es);
    lemma_dedup_entries_shared(r2, r1, es);
    reveal(is_dedup_of);
    lemma_ascending_same_entries(r1, r2);
}

/// A list whose ids ascend is its own de-duplication.
proof fn lemma_ascending_is_own_dedup(r: Seq<EntryView>)
    requires
        ids_ascending(r),
    ensures
        is_dedup_of(r, r),
{
    reveal(is_dedup_of);
    assert forall|k: int| 0 <= k < r.len() implies first_index_of_id(r, #[trigger] r[k].id) < r.len()
        && r[first_index_of_id(r, r[k].id)] == r[k] by {
        lemma_first_index_of_id(r, r[k].id);
        let f = first_index_of_id(r, r[k].id);
        if f < k {
            lemma_lex_irreflexive(r[k].id);
        }
    }
}

/// De-duplicating entries leaves ids that ascend, each once, and exactly
/// the ids of the input; de-duplicating again changes nothing.
pub proof fn law_dedup_idempotent(r: Seq<EntryView>, r2: Seq<EntryView>, es: Seq<EntryView>)
    requires
        is_dedup_of(r, es),
        is_dedup_of(r2, r),
    ensures
        ids_ascending(r),
        forall|a: int, b: int| 0 <= a < b < r.len() ==> r[a].id != r[b].id,
        forall|i: int| #![trigger es[i]] 0 <= i < es.len() ==> exists|k: int| #![trigger r[k]] 0 <= k < r.len() && r[k].id == es[i].id,
        forall|k: int| 0 <= k < r.len() ==> es.contains(#[trigger] r[k]),
        r2 == r,
{
    reveal(is_dedup_of);
    assert forall|a: int, b: int| 0 <= a < b < r.len() implies r[a].id != r[b].id by {
        lemma_lex_irreflexive(r[a].id);
    }
    assert forall|i: int| #![trigger es[i]] 0 <= i < es.len() implies exists|k: int| #![trigger r[k]] 0 <= k < r.len() && r[k].id == es[i].id by {
        lemma_first_index_of_id(r, es[i].id);
        let k = first_index_of_id(r, es[i].id);
        assert(r[k].id == es[i].id);
    }
    assert forall|k: int| 0 <= k < r.len() implies es.contains(#[trigger] r[k]) by {
        let f = first_index_of_id(es, r[k].id);
        lemma_first_index_of_id(es, r[k].id);
        assert(es[f] == r[k]);
    }
    lemma_ascending_is_own_dedup(r);
    law_dedup_determined(r2, r, r);
}


/// The characters that id normalisation spells out.
pub open spec fn is_id_special(c: char) -> bool {
    c == '^' || c == '<' || c == '>' || c == '/' || c == '?' || c == '.' || c == ',' || c == '@'
        || c == '#' || c == ' '
}

proof fn lemma_id_char_clean(c: char)
    ensures
        forall|j: int| 0 <= j < spec_id_char(c).len() ==> !is_id_special(#[trigger] spec_id_char(c)[j]),
        !is_id_special(c) ==> spec_id_char(c) == seq![c],
{
    reveal_strlit("ctrl_");
    reveal_strlit("lt_");
    reveal_strlit("gt_");
    reveal_strlit("slash");
    reveal_strlit("help");
    reveal_strlit("dot");
    reveal_strlit("comma");
    reveal_strlit("at");
    reveal_strlit("hash");
    reveal_strlit("_");
}

proof fn lemma_normalize_clean(s: Seq<char>)
    ensures
        forall|j: int| 0 <= j < spec_normalize_id_token(s).len() ==> !is_id_special(#[trigger] spec_normalize_id_token(s)[j]),
        (forall|j: int| 0 <= j < s.len() ==> !is_id_special(#[trigger] s[j])) ==> spec_normalize_id_token(s) == s,
    decreases s.len(),
{
    if s.len() > 0 {
        let front = s.drop_last();
        lemma_normalize_clean(front);
        lemma_id_char_clean(s.last());
        let a = spec_normalize_id_token(front);
        let b = spec_id_char(s.last());
        assert forall|j: int| 0 <= j < (a + b).len() implies !is_id_special(#[trigger] (a + b)[j]) by {
            if j < a.len() {
                assert((a + b)[j] == a[j]);
            } else {
                assert((a + b)[j] == b[j - a.len()]);
            }
        }
        if forall|j: int| 0 <= j < s.len() ==> !is_id_special(#[trigger] s[j]) {
            assert forall|j: int| 0 <= j < front.len() implies !is_id_special(#[trigger] front[j]) by {
                assert(front[j] == s[j]);
            }
            assert(!is_id_special(s[s.len() - 1]));
            assert(s =~= front + seq![s.last()]);
        }
    }
}

/// A normalised id token holds none of `^ < > / ? . , @ #` and no space,
/// and normalising it again changes nothing.
pub proof fn law_normalize_id_token(token: Seq<char>)
    ensures
        forall|j: int| 0 <= j < spec_normalize_id_token(token).len()
            ==> !is_id_special(#[trigger] spec_normalize_id_token(token)[j]),
        spec_normalize_id_token(spec_normalize_id_token(token)) == spec_normalize_id_token(token),
{
    lemma_normalize_clean(token);
    lemma_normalize_clean(spec_normalize_id_token(token));
}

/// Legacy and new-runtime ids of the same command, and of the same
/// function, get the same canonical key; the source prefix gives way to
/// the kind of mechanic.
pub proof fn law_canonical_key_sources_meet(name: Seq<char>)
    ensures
        spec_canonical_key("legacy.command."@ + name) == "command:"@ + name,
        spec_canonical_key("rust.command."@ + name) == "command:"@ + name,
        spec_canonical_key("legacy.function."@ + name) == "function:"@ + name,
        spec_canonical_key("legacy.definition."@ + name) == "function:"@ + name,
        spec_canonical_key("rust.function."@ + name) == "function:"@ + name,
        spec_canonical_key("legacy.define."@ + name) == "define:"@ + name,
{
    reveal_strlit("legacy.command.");
    reveal_strlit("rust.command.");
    reveal_strlit("legacy.function.");
    reveal_strlit("legacy.definition.");
    reveal_strlit("rust.function.");
    reveal_strlit("legacy.define.");
    let a = "legacy.command."@ + name;
    assert(a.subrange(0, 15) =~= "legacy.command."@);
    assert(a.skip(15) =~= name);
    let b = "rust.command."@ + name;
    assert(b.subrange(0, 13) =~= "rust.command."@);
    assert(b.skip(13) =~= name);
    assert(b.subrange(0, 15) != "legacy.command."@ || b.len() < 15) by {
        if b.len() >= 15 {
            assert(b.subrange(0, 15)[0] == 'r');
        }
    }
    let c = "legacy.function."@ + name;
    assert(c.subrange(0, 16) =~= "legacy.function."@);
    assert(c.skip(16) =~= name);
    assert(c.subrange(0, 15)[7] == 'f');
    assert(c.subrange(0, 13)[0] == 'l');
    let d = "legacy.definition."@ + name;
    assert(d.subrange(0, 18) =~= "legacy.definition."@);
    assert(d.skip(18) =~= name);
    assert(d.subrange(0, 15)[7] == 'd' && d.subrange(0, 15)[8] == 'e' && d.subrange(0, 15)[9] == 'f');
    assert(d.subrange(0, 13)[0] == 'l');
    assert(d.subrange(0, 16)[7] == 'd');
    let e = "rust.function."@ + name;
    assert(e.subrange(0, 14) =~= "rust.function."@);
    assert(e.skip(14) =~= name);
    assert(e.subrange(0, 13)[5] == 'f');
    assert(e.len() >= 15 ==> e.subrange(0, 15)[0] == 'r');
    assert(e.len() >= 16 ==> e.subrange(0, 16)[0] == 'r');
    assert(e.len() >= 18 ==> e.subrange(0, 18)[0] == 'r');
    let f = "legacy.define."@ + name;
    assert(f.subrange(0, 14) =~= "legacy.define."@);
    assert(f.skip(14) =~= name);
    assert(f.len() >= 15 ==> f.subrange(0, 15)[13] == '.' && f.subrange(0, 15)[7] == 'd');
    assert(f.subrange(0, 13)[0] == 'l');
    assert(f.len() >= 16 ==> f.subrange(0, 16)[7] == 'd');
    assert(f.len() >= 18 ==> f.subrange(0, 18)[13] == '.');
    assert(f.subrange(0, 14)[0] == 'l');
}


proof fn lemma_replace_char_avoids(s: Seq<char>, c: char, rep: Seq<char>, d: char)
    requires
        d == c || !s.contains(d),
        !rep.contains(d),
    ensures
        !spec_replace_char(s, c, rep).contains(d),
    decreases s.len(),
{
    if s.len() > 0 {
        let front = s.drop_last();
        if !s.contains(d) {
            assert forall|j: int| 0 <= j < front.len() implies front[j] != d by {
                assert(front[j] == s[j]);
            }
        }
        lemma_replace_char_avoids(front, c, rep, d);
        let a = spec_replace_char(front, c, rep);
        if s.last() == c {
            assert forall|j: int| 0 <= j < (a + rep).len() implies (a + rep)[j] != d by {
                if j < a.len() {
                    assert((a + rep)[j] == a[j]);
                } else {
                    assert((a + rep)[j] == rep[j - a.len()]);
                }
            }
        } else {
            assert(s[s.len() - 1] != d);
            assert forall|j: int| 0 <= j < a.push(s.last()).len() implies a.push(s.last())[j] != d by {
                if j < a.len() {
                    assert(a.push(s.last())[j] == a[j]);
                }
            }
        }
    }
}

proof fn lemma_trim_start_suffix(s: Seq<char>)
    ensures
        spec_trim_start(s).len() <= s.len(),
        spec_trim_start(s) == s.skip(s.len() - spec_trim_start(s).len()),
        spec_trim_start(s).len() > 0 ==> !spec_is_whitespace(spec_trim_start(s)[0]),
    decreases s.len(),
{
    if s.len() > 0 && spec_is_whitespace(s[0]) {
        lemma_trim_start_suffix(s.drop_first());
        assert(s.drop_first().skip(s.len() - 1 - spec_trim_start(s).len()) =~= s.skip(s.len() - spec_trim_start(s).len()));
    } else {
        assert(s.skip(0) =~= s);
    }
}

proof fn lemma_trim_end_prefix(s: Seq<char>)
    ensures
        spec_trim_end(s).len() <= s.len(),
        spec_trim_end(s) == s.take(spec_trim_end(s).len() as int),
        spec_trim_end(s).len() > 0 ==> !spec_is_whitespace(spec_trim_end(s).last()),
    decreases s.len(),
{
    if s.len() > 0 && spec_is_whitespace(s.last()) {
        lemma_trim_end_prefix(s.drop_last());
        assert(s.drop_last().take(spec_trim_end(s).len() as int) =~= s.take(spec_trim_end(s).len() as int));
    } else {
        assert(s.take(s.len() as int) =~= s);
    }
}

/// A table cell holds no line break, and neither starts nor ends with
/// white space.
pub proof fn law_sanitize_table(v: Seq<char>)
    ensures
        !spec_sanitize_table(v).contains('\n'),
        !spec_sanitize_table(v).contains('\r'),
        spec_sanitize_table(v).len() > 0 ==> !spec_is_whitespace(spec_sanitize_table(v)[0])
            && !spec_is_whitespace(spec_sanitize_table(v).last()),
{
    reveal_strlit("\\|");
    reveal_strlit(" ");
    let s1 = spec_replace_char(v, '|', "\\|"@);
    let s2 = spec_replace_char(s1, '\n', " "@);
    let s3 = spec_replace_char(s2, '\r', " "@);
    assert(!" "@.contains('\n'));
    assert(!" "@.contains('\r'));
    lemma_replace_char_avoids(s1, '\n', " "@, '\n');
    lemma_replace_char_avoids(s2, '\r', " "@, '\n');
    lemma_replace_char_avoids(s2, '\r', " "@, '\r');
    let t = spec_trim_start(s3);
    lemma_trim_start_suffix(s3);
    lemma_trim_end_prefix(t);
    let r = spec_trim_end(t);
    assert forall|j: int| 0 <= j < r.len() implies r[j] != '\n' && r[j] != '\r' by {
        assert(r[j] == t[j]);
        assert(t[j] == s3[j + (s3.len() - t.len())]);
    }
    if r.len() > 0 {
        assert(r[0] == t[0]);
    }
}

proof fn lemma_count_char_concat(a: Seq<char>, b: Seq<char>, c: char)
    ensures
        spec_count_char(a + b, c) == spec_count_char(a, c) + spec_count_char(b, c),
    decreases b.len(),
{
    if b.len() == 0 {
        assert(a + b =~= a);
    } else {
        assert((a + b).drop_last() =~= a + b.drop_last());
        lemma_count_char_concat(a, b.drop_last(), c);
    }
}

/// Escaping a YAML scalar doubles each single quote and keeps every other
/// character: the quotes double in number and the text grows by one
/// character per quote.
pub proof fn law_escape_yaml(v: Seq<char>)
    ensures
        spec_count_char(spec_escape_yaml(v), '\'') == 2 * spec_count_char(v, '\''),
        spec_escape_yaml(v).len() == v.len() + spec_count_char(v, '\''),
    decreases v.len(),
{
    reveal_strlit("''");
    if v.len() > 0 {
        let front = v.drop_last();
        law_escape_yaml(front);
        let a = spec_escape_yaml(front);
        if v.last() == '\'' {
            lemma_count_char_concat(a, "''"@, '\'');
            let q = "''"@;
            assert(q.drop_last() =~= seq!['\'']);
            assert(q.drop_last().drop_last() =~= Seq::<char>::empty());
            assert(spec_count_char(q, '\'') == 2) by {
                reveal_with_fuel(spec_count_char, 3);
            }
            assert(spec_escape_yaml(v) == a + q);
        } else {
            lemma_count_char_concat(a, seq![v.last()], '\'');
            assert(seq![v.last()].drop_last() =~= Seq::<char>::empty());
            assert(spec_count_char(seq![v.last()], '\'') == 0) by {
                reveal_with_fuel(spec_count_char, 2);
            }
            assert(a.push(v.last()) =~= a + seq![v.last()]);
            assert(spec_escape_yaml(v) == a.push(v.last()));
        }
    }
}


/// Two ascending lists of keys with the same keys are equal.
proof fn lemma_ascending_same_keys(a: Seq<Seq<char>>, b: Seq<Seq<char>>)
    requires
        keys_ascending(a),
        keys_ascending(b),
        forall|k: int| 0 <= k < a.len() ==> b.contains(#[trigger] a[k]),
        forall|k: int| 0 <= k < b.len() ==> a.contains(#[trigger] b[k]),
    ensures
        a == b,
    decreases a.len() + b.len(),
{
    if a.len() == 0 {
        if b.len() > 0 {
            assert(a.contains(b[0]));
        }
        assert(a =~= b);
    } else if b.len() == 0 {
        assert(b.contains(a[0]));
    } else {
        assert(b.contains(a[0]));
        let j = choose|j: int| 0 <= j < b.len() && b[j] == a[0];
        assert(a.contains(b[0]));
        let i = choose|i: int| 0 <= i < a.len() && a[i] == b[0];
        if j > 0 {
            assert(spec_lex_lt(b[0], b[j]));
            if i > 0 {
                assert(spec_lex_lt(a[0], a[i]));
                lemma_lex_asymmetric(b[0], a[0]);
            } else {
                lemma_lex_irreflexive(b[0]);
            }
        }
        let a2 = a.drop_first();
        let b2 = b.drop_first();
        assert(keys_ascending(a2)) by {
            assert forall|x: int, y: int| 0 <= x < y < a2.len() implies spec_lex_lt(a2[x], a2[y]) by {
                assert(a2[x] == a[x + 1] && a2[y] == a[y + 1]);
            }
        }
        assert(keys_ascending(b2)) by {
            assert forall|x: int, y: int| 0 <= x < y < b2.len() implies spec_lex_lt(b2[x], b2[y]) by {
                assert(b2[x] == b[x + 1] && b2[y] == b[y + 1]);
            }
        }
        assert forall|k: int| 0 <= k < a2.len() implies b2.contains(#[trigger] a2[k]) by {
            assert(a2[k] == a[k + 1]);
            assert(b.contains(a[k + 1]));
            let g = choose|g: int| 0 <= g < b.len() && b[g] == a[k + 1];
            assert(spec_lex_lt(a[0], a[k + 1]));
            if g == 0 {
                lemma_lex_irreflexive(a[0]);
            }
            assert(b2[g - 1] == b[g]);
        }
        assert forall|k: int| 0 <= k < b2.len() implies a2.contains(#[trigger] b2[k]) by {
            assert(b2[k] == b[k + 1]);
            assert(a.contains(b[k + 1]));
            let g = choose|g: int| 0 <= g < a.len() && a[g] == b[k + 1];
            assert(spec_lex_lt(b[0], b[k + 1]));
            if g == 0 {
                lemma_lex_irreflexive(b[0]);
            }
            assert(a2[g - 1] == a[g]);
        }
        lemma_ascending_same_keys(a2, b2);
        assert(a =~= seq![a[0]] + a2);
        assert(b =~= seq![b[0]] + b2);
    }
}

proof fn lemma_non_blank_keeps(v: Seq<Seq<char>>)
    requires
        forall|k: int| 0 <= k < v.len() ==> spec_trim(#[trigger] v[k]).len() > 0,
    ensures
        spec_non_blank(v) == v,
    decreases v.len(),
{
    if v.len() > 0 {
        let front = v.drop_last();
        assert forall|k: int| 0 <= k < front.len() implies spec_trim(#[trigger] front[k]).len() > 0 by {
            assert(front[k] == v[k]);
        }
        lemma_non_blank_keeps(front);
        assert(spec_trim(v[v.len() - 1]).len() > 0);
        assert(v =~= front.push(v.last()));
    }
}

proof fn lemma_non_blank_members(v: Seq<Seq<char>>)
    ensures
        forall|k: int| 0 <= k < spec_non_blank(v).len() ==> spec_trim(#[trigger] spec_non_blank(v)[k]).len() > 0,
    decreases v.len(),
{
    if v.len() > 0 {
        let front = spec_non_blank(v.drop_last());
        lemma_non_blank_members(v.drop_last());
        if spec_trim(v.last()).len() > 0 {
            assert forall|k: int| 0 <= k < front.push(v.last()).len() implies spec_trim(#[trigger] front.push(v.last())[k]).len() > 0 by {
                if k < front.len() {
                    assert(front.push(v.last())[k] == front[k]);
                }
            }
        }
    }
}

proof fn lemma_fill_default(v: Seq<char>, default: Seq<char>)
    requires
        spec_trim(default).len() > 0,
    ensures
        spec_trim(if spec_trim(v).len() == 0 { default } else { v }).len() > 0,
{
}

/// Normalising fixture metadata twice gives what normalising once gave.
pub proof fn law_normalize_metadata_idempotent(m0: FixtureMetadata, m1: FixtureMetadata, m2: FixtureMetadata)
    requires
        is_normalized_metadata(m1, m0),
        is_normalized_metadata(m2, m1),
    ensures
        m2.contract_version == m1.contract_version,
        m2.active == m1.active,
        m2.name == m1.name,
        string_views(m2.tags@) == string_views(m1.tags@),
        m2.family@ == m1.family@,
        m2.source@ == m1.source@,
{
    reveal_strlit("unclassified");
    reveal_strlit("legacy_handcrafted");
    let t0 = string_views(m0.tags@);
    let t1 = string_views(m1.tags@);
    let t2 = string_views(m2.tags@);
    lemma_non_blank_members(t0);
    assert forall|k: int| 0 <= k < t1.len() implies spec_trim(#[trigger] t1[k]).len() > 0 by {
        assert(spec_non_blank(t0).contains(t1[k]));
    }
    lemma_non_blank_keeps(t1);
    lemma_ascending_same_keys(t2, t1);
    let u = "unclassified"@;
    assert(spec_trim_start(u) == u);
    assert(spec_trim_end(u) == u);
    let l = "legacy_handcrafted"@;
    assert(spec_trim_start(l) == l);
    assert(spec_trim_end(l) == l);
    lemma_fill_default(m0.family@, u);
    lemma_fill_default(m0.source@, l);
}

} // verus!
