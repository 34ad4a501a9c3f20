//! Sorted sets of keys and per-key counts: ordered maps keyed by text,
//! kept as vectors in ascending key order.
use vstd::prelude::*;

use crate::text::{
    chars_eq, clone_chars, lemma_lex_irreflexive, lemma_lex_total, lemma_lex_transitive, lex_lt,
    spec_lex_lt,
};

verus! {

broadcast use crate::views::group_view_lemmas;

/// Keys strictly ascend in text order.
pub open spec fn keys_ascending(ks: Seq<Seq<char>>) -> bool {
    forall|a: int, b: int| 0 <= a < b < ks.len() ==> spec_lex_lt(ks[a], ks[b])
}

/// `r` is the set of the keys in `keys`, in ascending order.
pub open spec fn is_sorted_key_set(r: Seq<Seq<char>>, keys: Seq<Seq<char>>) -> bool {
    &&& keys_ascending(r)
    &&& forall|k: int| 0 <= k < r.len() ==> keys.contains(#[trigger] r[k])
    &&& forall|i: int| 0 <= i < keys.len() ==> r.contains(#[trigger] keys[i])
}

/// Number of leading keys of `out` below `key`, when `out` ascends.
fn key_insertion_point(out: &Vec<Vec<char>>, key: &Vec<char>) -> (p: usize)
    requires
        keys_ascending(out.deep_view()),
    ensures
        p <= out.len(),
        forall|a: int| 0 <= a < p ==> spec_lex_lt(out.deep_view()[a], key@),
        p < out.len() ==> !spec_lex_lt(out.deep_view()[p as int], key@),
{
    let mut p: usize = 0;
    while p < out.len()
        invariant
            p <= out.len(),
            forall|a: int| 0 <= a < p ==> spec_lex_lt(out.deep_view()[a], key@),
        decreases out.len() - p,
    {
        assert(out.deep_view()[p as int] == out[p as int]@);
        if !lex_lt(&out[p], key) {
            return p;
        }
        p = p + 1;
    }
    p
}

proof fn lemma_key_set_insert(ov: Seq<Seq<char>>, keys: Seq<Seq<char>>, i: int, p: int)
    requires
        0 <= i < keys.len(),
        is_sorted_key_set(ov, keys.take(i)),
        0 <= p <= ov.len(),
        forall|a: int| 0 <= a < p ==> spec_lex_lt(ov[a], keys[i]),
        p < ov.len() ==> !spec_lex_lt(ov[p], keys[i]) && ov[p] != keys[i],
    ensures
        is_sorted_key_set(ov.insert(p, keys[i]), keys.take(i + 1)),
{
    let e = keys[i];
    let pre = keys.take(i);
    let post = keys.take(i + 1);
    let nv = ov.insert(p, e);
    if p < ov.len() {
        lemma_lex_total(ov[p], e);
    }
    assert forall|a: int, b: int| 0 <= a < b < nv.len() implies spec_lex_lt(nv[a], nv[b]) by {
        if a < p && b == p {
        } else if a < p && b > p {
            assert(nv[a] == ov[a] && nv[b] == ov[b - 1]);
            if b - 1 > p {
                lemma_lex_transitive(e, ov[p], ov[b - 1]);
            }
            lemma_lex_transitive(nv[a], e, nv[b]);
        } else if a == p && b > p {
            assert(nv[a] == e && nv[b] == ov[b - 1]);
            if b - 1 > p {
                lemma_lex_transitive(e, ov[p], ov[b - 1]);
            }
        } else if a > p {
            assert(nv[a] == ov[a - 1] && nv[b] == ov[b - 1]);
        }
    }
    assert forall|k: int| 0 <= k < nv.len() implies post.contains(#[trigger] nv[k]) by {
        if k == p {
            assert(post[i] == e);
        } else {
            let ok = if k < p {
                k
            } else {
                k - 1
            };
            assert(nv[k] == ov[ok]);
            assert(pre.contains(ov[ok]));
            let j = choose|j: int| 0 <= j < pre.len() && pre[j] == ov[ok];
            assert(post[j] == pre[j]);
        }
    }
    assert forall|j: int| 0 <= j < post.len() implies nv.contains(#[trigger] post[j]) by {
        if j < i {
            assert(post[j] == pre[j]);
            assert(ov.contains(pre[j]));
            let g = choose|g: int| 0 <= g < ov.len() && ov[g] == pre[j];
            if g < p {
                assert(nv[g] == ov[g]);
            } else {
                assert(nv[g + 1] == ov[g]);
            }
        } else {
            assert(nv[p] == e);
        }
    }
}

proof fn lemma_key_set_skip(ov: Seq<Seq<char>>, keys: Seq<Seq<char>>, i: int, p: int)
    requires
        0 <= i < keys.len(),
        is_sorted_key_set(ov, keys.take(i)),
        0 <= p < ov.len(),
        ov[p] == keys[i],
    ensures
        is_sorted_key_set(ov, keys.take(i + 1)),
{
    let pre = keys.take(i);
    let post = keys.take(i + 1);
    assert forall|k: int| 0 <= k < ov.len() implies post.contains(#[trigger] ov[k]) by {
        assert(pre.contains(ov[k]));
        let j = choose|j: int| 0 <= j < pre.len() && pre[j] == ov[k];
        assert(post[j] == pre[j]);
    }
    assert forall|j: int| 0 <= j < post.len() implies ov.contains(#[trigger] post[j]) by {
        if j < i {
            assert(post[j] == pre[j]);
        } else {
            assert(ov[p] == post[j]);
        }
    }
}

/// The distinct keys, in ascending text order.
pub fn sorted_key_set(keys: &Vec<Vec<char>>) -> (r: Vec<Vec<char>>)
    ensures
        is_sorted_key_set(r.deep_view(), keys.deep_view()),
{
    let ghost ks = keys.deep_view();
    let mut out: Vec<Vec<char>> = Vec::new();
    let mut i: usize = 0;
    while i < keys.len()
        invariant
            i <= keys.len(),
            ks == keys.deep_view(),
            is_sorted_key_set(out.deep_view(), ks.take(i as int)),
        decreases keys.len() - i,
    {
        let p = key_insertion_point(&out, &keys[i]);
        let ghost ov = out.deep_view();
        assert(ks[i as int] == keys[i as int]@);
        if p < out.len() && chars_eq(&out[p], &keys[i]) {
            assert(ov[p as int] == out[p as int]@);
            proof {
                lemma_key_set_skip(ov, ks, i as int, p as int);
            }
        } else {
            assert(p < out.len() ==> ov[p as int] == out[p as int]@);
            proof {
                lemma_key_set_insert(ov, ks, i as int, p as int);
            }
            let item = clone_chars(&keys[i]);
            out.insert(p, item);
            assert(out.deep_view() =~= ov.insert(p as int, ks[i as int]));
        }
        i = i + 1;
    }
    assert(ks.take(keys.len() as int) == ks);
    out
}

/// Number of occurrences of `k` in `keys`.
pub open spec fn spec_count_key(keys: Seq<Seq<char>>, k: Seq<char>) -> nat
    decreases keys.len(),
{
    if keys.len() == 0 {
        0
    } else {
        spec_count_key(keys.drop_last(), k) + if keys.last() == k {
            1nat
        } else {
            0nat
        }
    }
}

pub proof fn lemma_count_key_le(keys: Seq<Seq<char>>, k: Seq<char>)
    ensures
        spec_count_key(keys, k) <= keys.len(),
    decreases keys.len(),
{
    if keys.len() > 0 {
        lemma_count_key_le(keys.drop_last(), k);
    }
}

pub fn count_key(keys: &Vec<Vec<char>>, k: &Vec<char>) -> (r: usize)
    ensures
        r == spec_count_key(keys.deep_view(), k@),
{
    let mut n: usize = 0;
    let mut i: usize = 0;
    while i < keys.len()
        invariant
            i <= keys.len(),
            n == spec_count_key(keys.deep_view().take(i as int), k@),
        decreases keys.len() - i,
    {
        assert(keys.deep_view().take(i + 1).drop_last() == keys.deep_view().take(i as int));
        assert(keys.deep_view()[i as int] == keys[i as int]@);
        proof {
            lemma_count_key_le(keys.deep_view().take(i as int), k@);
        }
        if chars_eq(&keys[i], k) {
            n = n + 1;
        }
        i = i + 1;
    }
    assert(keys.deep_view().take(keys.len() as int) == keys.deep_view());
    n
}

/// `r` lists each distinct key of `keys` once, in ascending order, with the
/// number of its occurrences.
pub open spec fn is_tally_of(r: Seq<(Seq<char>, nat)>, keys: Seq<Seq<char>>) -> bool {
    &&& is_sorted_key_set(tally_keys(r), keys)
    &&& forall|k: int| 0 <= k < r.len() ==> #[trigger] r[k].1 == spec_count_key(keys, r[k].0)
}

/// The keys of a tally.
pub open spec fn tally_keys(r: Seq<(Seq<char>, nat)>) -> Seq<Seq<char>> {
    r.map_values(|p: (Seq<char>, nat)| p.0)
}

/// The view of a tally.
pub open spec fn tally_view(v: Seq<(Vec<char>, usize)>) -> Seq<(Seq<char>, nat)> {
    v.map_values(|p: (Vec<char>, usize)| (p.0@, p.1 as nat))
}

/// Each distinct key with its number of occurrences, in ascending order.
pub fn tally(keys: &Vec<Vec<char>>) -> (r: Vec<(Vec<char>, usize)>)
    ensures
        is_tally_of(tally_view(r@), keys.deep_view()),
{
    let set = sorted_key_set(keys);
    let mut out: Vec<(Vec<char>, usize)> = Vec::new();
    let mut i: usize = 0;
    while i < set.len()
        invariant
            i <= set.len(),
            is_sorted_key_set(set.deep_view(), keys.deep_view()),
            out.len() == i,
            forall|k: int| 0 <= k < i ==> #[trigger] tally_view(out@)[k].0 == set.deep_view()[k],
            forall|k: int| 0 <= k < out.len() ==> #[trigger] tally_view(out@)[k].1 == spec_count_key(
                keys.deep_view(),
                tally_view(out@)[k].0,
            ),
        decreases set.len() - i,
    {
        let ghost before = tally_view(out@);
        let n = count_key(keys, &set[i]);
        let key = clone_chars(&set[i]);
        out.push((key, n));
        assert(set.deep_view()[i as int] == set[i as int]@);
        assert(tally_view(out@) =~= before.push((set[i as int]@, n as nat)));
        i = i + 1;
    }
    assert(tally_keys(tally_view(out@)) =~= set.deep_view());
    out
}


/// Sum of the counts of a tally.
pub open spec fn spec_tally_sum(r: Seq<(Seq<char>, nat)>) -> nat
    decreases r.len(),
{
    if r.len() == 0 {
        0
    } else {
        spec_tally_sum(r.drop_last()) + r.last().1
    }
}

/// Sum, over the keys `ds`, of the occurrences of each in `keys`.
pub open spec fn spec_sum_counts(ds: Seq<Seq<char>>, keys: Seq<Seq<char>>) -> nat
    decreases ds.len(),
{
    if ds.len() == 0 {
        0
    } else {
        spec_sum_counts(ds.drop_last(), keys) + spec_count_key(keys, ds.last())
    }
}

proof fn lemma_sum_counts_push(ds: Seq<Seq<char>>, keys: Seq<Seq<char>>, x: Seq<char>)
    ensures
        spec_sum_counts(ds, keys.push(x)) == spec_sum_counts(ds, keys) + spec_count_key(ds, x),
    decreases ds.len(),
{
    assert(keys.push(x).drop_last() == keys);
    if ds.len() > 0 {
        lemma_sum_counts_push(ds.drop_last(), keys, x);
    }
}

proof fn lemma_count_key_absent(ds: Seq<Seq<char>>, x: Seq<char>)
    requires
        !ds.contains(x),
    ensures
        spec_count_key(ds, x) == 0,
    decreases ds.len(),
{
    if ds.len() > 0 {
        assert(ds.last() == ds[ds.len() - 1]);
        assert forall|j: int| 0 <= j < ds.drop_last().len() implies ds.drop_last()[j] != x by {
            assert(ds.drop_last()[j] == ds[j]);
        }
        lemma_count_key_absent(ds.drop_last(), x);
    }
}

/// In ascending keys, a key that occurs occurs once.
pub proof fn lemma_count_key_once(ds: Seq<Seq<char>>, x: Seq<char>)
    requires
        keys_ascending(ds),
        ds.contains(x),
    ensures
        spec_count_key(ds, x) == 1,
    decreases ds.len(),
{
    let n = ds.len() as int;
    let front = ds.drop_last();
    assert(keys_ascending(front)) by {
        assert forall|a: int, b: int| 0 <= a < b < front.len() implies spec_lex_lt(front[a], front[b]) by {
            assert(front[a] == ds[a] && front[b] == ds[b]);
        }
    }
    if ds.last() == x {
        assert forall|j: int| 0 <= j < front.len() implies front[j] != x by {
            assert(front[j] == ds[j]);
            assert(spec_lex_lt(ds[j], ds[n - 1]));
            lemma_lex_irreflexive(x);
        }
        lemma_count_key_absent(front, x);
    } else {
        let j = choose|j: int| 0 <= j < ds.len() && ds[j] == x;
        assert(j < n - 1);
        assert(front[j] == x);
        lemma_count_key_once(front, x);
    }
}

/// Counting every key of `keys` over distinct keys that include them all
/// counts each key once.
pub proof fn lemma_sum_counts_total(ds: Seq<Seq<char>>, keys: Seq<Seq<char>>)
    requires
        keys_ascending(ds),
        forall|i: int| 0 <= i < keys.len() ==> ds.contains(#[trigger] keys[i]),
    ensures
        spec_sum_counts(ds, keys) == keys.len(),
    decreases keys.len(),
{
    if keys.len() == 0 {
        lemma_sum_counts_zero(ds, keys);
    } else {
        let front = keys.drop_last();
        assert forall|i: int| 0 <= i < front.len() implies ds.contains(#[trigger] front[i]) by {
            assert(front[i] == keys[i]);
        }
        lemma_sum_counts_total(ds, front);
        assert(keys == front.push(keys.last()));
        assert(ds.contains(keys[keys.len() - 1]));
        lemma_sum_counts_push(ds, front, keys.last());
        lemma_count_key_once(ds, keys.last());
    }
}

proof fn lemma_sum_counts_zero(ds: Seq<Seq<char>>, keys: Seq<Seq<char>>)
    requires
        keys.len() == 0,
    ensures
        spec_sum_counts(ds, keys) == 0,
    decreases ds.len(),
{
    if ds.len() > 0 {
        lemma_sum_counts_zero(ds.drop_last(), keys);
    }
}

proof fn lemma_tally_sum_is_sum_counts(r: Seq<(Seq<char>, nat)>, keys: Seq<Seq<char>>)
    requires
        forall|k: int| 0 <= k < r.len() ==> #[trigger] r[k].1 == spec_count_key(keys, r[k].0),
    ensures
        spec_tally_sum(r) == spec_sum_counts(tally_keys(r), keys),
    decreases r.len(),
{
    if r.len() > 0 {
        let front = r.drop_last();
        assert forall|k: int| 0 <= k < front.len() implies #[trigger] front[k].1 == spec_count_key(keys, front[k].0) by {
            assert(front[k] == r[k]);
        }
        lemma_tally_sum_is_sum_counts(front, keys);
        assert(tally_keys(r).drop_last() =~= tally_keys(front));
        assert(r[r.len() - 1].1 == spec_count_key(keys, r[r.len() - 1].0));
    }
}

/// The counts of a tally add up to the number of keys counted.
pub proof fn lemma_tally_sum(r: Seq<(Seq<char>, nat)>, keys: Seq<Seq<char>>)
    requires
        is_tally_of(r, keys),
    ensures
        spec_tally_sum(r) == keys.len(),
{
    lemma_tally_sum_is_sum_counts(r, keys);
    lemma_sum_counts_total(tally_keys(r), keys);
}


/// Inserting a key at its place keeps keys ascending.
pub proof fn lemma_insert_keeps_ascending(ks: Seq<Seq<char>>, p: int, key: Seq<char>)
    requires
        keys_ascending(ks),
        0 <= p <= ks.len(),
        forall|a: int| 0 <= a < p ==> spec_lex_lt(ks[a], key),
        p < ks.len() ==> spec_lex_lt(key, ks[p]),
    ensures
        keys_ascending(ks.insert(p, key)),
{
    let nv = ks.insert(p, key);
    assert forall|a: int, b: int| 0 <= a < b < nv.len() implies spec_lex_lt(nv[a], nv[b]) by {
        if a < p && b == p {
        } else if a < p && b > p {
            assert(nv[a] == ks[a] && nv[b] == ks[b - 1]);
            if b - 1 > p {
                lemma_lex_transitive(key, ks[p], ks[b - 1]);
            }
            lemma_lex_transitive(nv[a], key, nv[b]);
        } else if a == p && b > p {
            assert(nv[a] == key && nv[b] == ks[b - 1]);
            if b - 1 > p {
                lemma_lex_transitive(key, ks[p], ks[b - 1]);
            }
        } else if a > p {
            assert(nv[a] == ks[a - 1] && nv[b] == ks[b - 1]);
        }
    }
}

/// A sorted key set has as many keys as there are distinct keys.
pub proof fn lemma_sorted_set_size(ks: Seq<Seq<char>>, keys: Seq<Seq<char>>)
    requires
        is_sorted_key_set(ks, keys),
    ensures
        ks.len() == keys.to_set().len(),
{
    assert(ks.no_duplicates()) by {
        assert forall|a: int, b: int| 0 <= a < ks.len() && 0 <= b < ks.len() && a != b implies ks[a] != ks[b] by {
            if a < b {
                crate::text::lemma_lex_irreflexive(ks[a]);
            } else {
                crate::text::lemma_lex_irreflexive(ks[b]);
            }
        }
    }
    assert(ks.to_set() =~= keys.to_set()) by {
        assert forall|x: Seq<char>| ks.to_set().contains(x) implies keys.to_set().contains(x) by {
            let k = choose|k: int| 0 <= k < ks.len() && ks[k] == x;
            assert(keys.contains(ks[k]));
        }
        assert forall|x: Seq<char>| keys.to_set().contains(x) implies ks.to_set().contains(x) by {
            let k = choose|k: int| 0 <= k < keys.len() && keys[k] == x;
            assert(ks.contains(keys[k]));
        }
    }
    ks.unique_seq_to_set();
}

} // verus!
