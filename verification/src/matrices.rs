//! Checks of the true-parity matrices that rest on the runtime's source
//! and on the legacy catalogs: the item effect tokens that the runtime
//! knows, the spell trials, and the site checks read from their report.
use vstd::prelude::*;

use crate::recovery::{check_views, CheckView};
use crate::refresh::MatrixCheck;
use crate::tally::{is_sorted_key_set, keys_ascending, lemma_sorted_set_size, sorted_key_set};
use crate::text::{
    chars_eq, chars_of, copy_range, extend, extend_str, join, push_dec, spec_dec, spec_join,
    spec_lex_lt, spec_starts_with, spec_trim, starts_with_str, string_of, trim,
};

verus! {

broadcast use crate::views::group_view_lemmas;

pub open spec fn texts_view(v: Seq<String>) -> Seq<Seq<char>> {
    Seq::new(v.len(), |i: int| v[i]@)
}

// ---------------------------------------------------------------------------
// Item effect tokens
// ---------------------------------------------------------------------------

/// A character of an item effect token after its `I_` prefix.
pub open spec fn spec_is_token_char(c: char) -> bool {
    c == '_' || ('A' <= c && c <= 'Z') || ('0' <= c && c <= '9')
}

/// Where the run of token characters that starts at `j` ends.
pub open spec fn spec_token_end(s: Seq<char>, j: int) -> int
    decreases s.len() - j,
{
    if 0 <= j < s.len() && spec_is_token_char(s[j]) {
        spec_token_end(s, j + 1)
    } else {
        j
    }
}

pub proof fn lemma_token_end(s: Seq<char>, j: int)
    requires
        0 <= j <= s.len(),
    ensures
        j <= spec_token_end(s, j) <= s.len(),
    decreases s.len() - j,
{
    if j < s.len() && spec_is_token_char(s[j]) {
        lemma_token_end(s, j + 1);
    }
}

/// The item effect tokens of a source text from position `i` on, in order:
/// `I_` followed by at least one upper-case letter, digit or underscore.
/// After a token, or after an `I_` that starts none, the scan goes on
/// behind it.
pub open spec fn spec_usef_scan(s: Seq<char>, i: int) -> Seq<Seq<char>>
    decreases s.len() - i,
{
    if i < 0 || i + 2 > s.len() {
        Seq::empty()
    } else if s[i] == 'I' && s[i + 1] == '_' {
        let end = spec_token_end(s, i + 2);
        proof {
            lemma_token_end(s, i + 2);
        }
        if end > i + 2 {
            seq![s.subrange(i, end)] + spec_usef_scan(s, end)
        } else {
            spec_usef_scan(s, end)
        }
    } else {
        spec_usef_scan(s, i + 1)
    }
}

fn is_token_char(c: char) -> (r: bool)
    ensures
        r == spec_is_token_char(c),
{
    c == '_' || ('A' <= c && c <= 'Z') || ('0' <= c && c <= '9')
}

fn token_end(s: &Vec<char>, j: usize) -> (r: usize)
    requires
        j <= s.len(),
    ensures
        r as int == spec_token_end(s@, j as int),
        j <= r <= s.len(),
{
    let mut k: usize = j;
    while k < s.len() && is_token_char(s[k])
        invariant
            j <= k <= s.len(),
            spec_token_end(s@, k as int) == spec_token_end(s@, j as int),
        decreases s.len() - k,
    {
        k = k + 1;
    }
    k
}

/// The item effect tokens of a source text, each once, in ascending order.
pub fn extract_usef_tokens(source: &str) -> (r: Vec<String>)
    ensures
        is_sorted_key_set(texts_view(r@), spec_usef_scan(source@, 0)),
{
    let s = chars_of(source);
    let ghost all = spec_usef_scan(s@, 0);
    let mut found: Vec<Vec<char>> = Vec::new();
    let mut i: usize = 0;
    assert(found.deep_view() + spec_usef_scan(s@, 0) =~= all);
    while i < s.len() && s.len() - i >= 2
        invariant
            i <= s.len(),
            found.deep_view() + spec_usef_scan(s@, i as int) == all,
            all == spec_usef_scan(s@, 0),
        decreases s.len() - i,
    {
        if s[i] == 'I' && s[i + 1] == '_' {
            let end = token_end(&s, i + 2);
            proof {
                lemma_token_end(s@, i + 2);
            }
            if end > i + 2 {
                let ghost before = found.deep_view();
                let t = copy_range(&s, i, end);
                found.push(t);
                assert(found.deep_view() =~= before.push(s@.subrange(i as int, end as int)));
                assert(found.deep_view() + spec_usef_scan(s@, end as int) =~= before + (seq![
                    s@.subrange(i as int, end as int),
                ] + spec_usef_scan(s@, end as int)));
            }
            i = end;
        } else {
            i = i + 1;
        }
    }
    assert(spec_usef_scan(s@, i as int) =~= Seq::<Seq<char>>::empty());
    assert(found.deep_view() =~= all);
    let set = sorted_key_set(&found);
    let mut out: Vec<String> = Vec::new();
    let mut k: usize = 0;
    while k < set.len()
        invariant
            k <= set.len(),
            texts_view(out@) == set.deep_view().take(k as int),
        decreases set.len() - k,
    {
        let ghost before = texts_view(out@);
        out.push(string_of(&set[k]));
        assert(set.deep_view()[k as int] == set[k as int]@);
        assert(texts_view(out@) =~= before.push(set.deep_view()[k as int]));
        assert(set.deep_view().take(k + 1) =~= set.deep_view().take(k as int).push(set.deep_view()[k as int]));
        k = k + 1;
    }
    assert(set.deep_view().take(set.len() as int) =~= set.deep_view());
    out
}

/// The effect tokens of the legacy item catalog: each entry's token,
/// trimmed, where it starts with `I_`.
pub open spec fn spec_legacy_usefs(us: Seq<Seq<char>>) -> Seq<Seq<char>>
    decreases us.len(),
{
    if us.len() == 0 {
        Seq::empty()
    } else {
        let prev = spec_legacy_usefs(us.drop_last());
        let t = spec_trim(us.last());
        if spec_starts_with(t, "I_"@) {
            prev.push(t)
        } else {
            prev
        }
    }
}

/// The keys of `ks` that `other` does not hold, in order.
pub open spec fn spec_absent(ks: Seq<Seq<char>>, other: Seq<Seq<char>>) -> Seq<Seq<char>>
    decreases ks.len(),
{
    if ks.len() == 0 {
        Seq::empty()
    } else if other.contains(ks.last()) {
        spec_absent(ks.drop_last(), other)
    } else {
        spec_absent(ks.drop_last(), other).push(ks.last())
    }
}

proof fn lemma_absent_members(ks: Seq<Seq<char>>, other: Seq<Seq<char>>)
    ensures
        forall|x: Seq<char>| #[trigger] spec_absent(ks, other).contains(x) <==> (ks.contains(x) && !other.contains(x)),
    decreases ks.len(),
{
    if ks.len() > 0 {
        lemma_absent_members(ks.drop_last(), other);
        let prev = spec_absent(ks.drop_last(), other);
        assert forall|x: Seq<char>| #[trigger] spec_absent(ks, other).contains(x) <==> (ks.contains(x) && !other.contains(x)) by {
            if ks.contains(x) {
                let i = choose|i: int| 0 <= i < ks.len() && ks[i] == x;
                if i < ks.len() - 1 {
                    assert(ks.drop_last()[i] == x);
                }
            }
            if ks.drop_last().contains(x) {
                let i = choose|i: int| 0 <= i < ks.drop_last().len() && ks.drop_last()[i] == x;
                assert(ks[i] == x);
            }
            if !other.contains(ks.last()) {
                assert(spec_absent(ks, other) == prev.push(ks.last()));
                if prev.contains(x) {
                    let i = choose|i: int| 0 <= i < prev.len() && prev[i] == x;
                    assert(prev.push(ks.last())[i] == x);
                }
                if prev.push(ks.last()).contains(x) && x != ks.last() {
                    let i = choose|i: int| 0 <= i < prev.len() + 1 && prev.push(ks.last())[i] == x;
                    assert(prev[i] == x);
                }
                assert(prev.push(ks.last())[prev.len() as int] == ks.last());
            }
        }
    } else {
        assert forall|x: Seq<char>| #[trigger] spec_absent(ks, other).contains(x) <==> (ks.contains(x) && !other.contains(x)) by {}
    }
}

proof fn lemma_absent_ascending(ks: Seq<Seq<char>>, other: Seq<Seq<char>>)
    requires
        keys_ascending(ks),
    ensures
        keys_ascending(spec_absent(ks, other)),
    decreases ks.len(),
{
    if ks.len() > 0 {
        let init = ks.drop_last();
        assert(keys_ascending(init));
        lemma_absent_ascending(init, other);
        lemma_absent_members(init, other);
        let prev = spec_absent(init, other);
        if !other.contains(ks.last()) {
            let r = prev.push(ks.last());
            assert forall|a: int, b: int| 0 <= a < b < r.len() implies spec_lex_lt(r[a], r[b]) by {
                if b == prev.len() {
                    assert(prev.contains(prev[a]));
                    assert(init.contains(prev[a]));
                    let i = choose|i: int| 0 <= i < init.len() && init[i] == prev[a];
                    assert(ks[i] == prev[a]);
                    assert(ks[ks.len() - 1] == ks.last());
                } else {
                    assert(r[a] == prev[a] && r[b] == prev[b]);
                }
            }
        }
    }
}

fn has_key(keys: &Vec<Vec<char>>, k: &Vec<char>) -> (r: bool)
    ensures
        r == keys.deep_view().contains(k@),
{
    let mut i: usize = 0;
    while i < keys.len()
        invariant
            i <= keys.len(),
            forall|j: int| 0 <= j < i ==> keys.deep_view()[j] != k@,
        decreases keys.len() - i,
    {
        if chars_eq(&keys[i], k) {
            assert(keys.deep_view()[i as int] == k@);
            return true;
        }
        i = i + 1;
    }
    false
}

/// `legacy_usef=<n> runtime_tokens=<m> missing=<list or <none>>`.
pub open spec fn spec_usef_details(legacy: nat, runtime: nat, missing: Seq<Seq<char>>) -> Seq<char> {
    "legacy_usef="@ + spec_dec(legacy) + " runtime_tokens="@ + spec_dec(runtime) + " missing="@ + if missing.len()
        == 0 {
        "<none>"@
    } else {
        spec_join(missing, ","@)
    }
}

/// The check that every effect token of the legacy item catalog occurs in
/// the runtime's source: the tokens missing from it, each once, in
/// ascending order, are listed.
pub open spec fn spec_usef_check(catalog: Seq<Seq<char>>, source: Seq<char>, missing: Seq<Seq<char>>) -> CheckView {
    CheckView {
        id: "legacy_usef_tokens_covered"@,
        passed: missing.len() == 0,
        details: spec_usef_details(
            spec_legacy_usefs(catalog).to_set().len(),
            spec_usef_scan(source, 0).to_set().len(),
            missing,
        ),
    }
}

pub fn usef_coverage_check(catalog_usefs: &Vec<String>, core_source: &str) -> (r: MatrixCheck)
    ensures
        exists|missing: Seq<Seq<char>>|
            is_sorted_key_set(missing, spec_absent(spec_legacy_usefs(texts_view(catalog_usefs@)), spec_usef_scan(core_source@, 0)))
                && check_views(seq![r])[0] == spec_usef_check(texts_view(catalog_usefs@), core_source@, missing),
{
    let ghost cat = texts_view(catalog_usefs@);
    let mut legacy: Vec<Vec<char>> = Vec::new();
    let mut i: usize = 0;
    while i < catalog_usefs.len()
        invariant
            i <= catalog_usefs.len(),
            cat == texts_view(catalog_usefs@),
            legacy.deep_view() == spec_legacy_usefs(cat.take(i as int)),
        decreases catalog_usefs.len() - i,
    {
        assert(cat.take(i + 1).drop_last() =~= cat.take(i as int));
        let t = trim(&chars_of(catalog_usefs[i].as_str()));
        if starts_with_str(&t, "I_") {
            let ghost before = legacy.deep_view();
            legacy.push(t);
            assert(legacy.deep_view() =~= before.push(spec_trim(cat[i as int])));
        }
        i = i + 1;
    }
    assert(cat.take(catalog_usefs.len() as int) =~= cat);
    let legacy_set = sorted_key_set(&legacy);
    let runtime = extract_usef_tokens(core_source);
    let ghost rv = texts_view(runtime@);
    let ghost lv = legacy_set.deep_view();
    let ghost scan = spec_usef_scan(core_source@, 0);
    let mut runtime_keys: Vec<Vec<char>> = Vec::new();
    let mut j: usize = 0;
    while j < runtime.len()
        invariant
            j <= runtime.len(),
            rv == texts_view(runtime@),
            runtime_keys.deep_view() == rv.take(j as int),
        decreases runtime.len() - j,
    {
        let ghost before = runtime_keys.deep_view();
        runtime_keys.push(chars_of(runtime[j].as_str()));
        assert(runtime_keys.deep_view() =~= before.push(rv[j as int]));
        assert(rv.take(j + 1) =~= rv.take(j as int).push(rv[j as int]));
        j = j + 1;
    }
    assert(rv.take(runtime.len() as int) =~= rv);
    let mut missing: Vec<Vec<char>> = Vec::new();
    let mut k: usize = 0;
    while k < legacy_set.len()
        invariant
            k <= legacy_set.len(),
            lv == legacy_set.deep_view(),
            runtime_keys.deep_view() == rv,
            missing.deep_view() == spec_absent(lv.take(k as int), rv),
        decreases legacy_set.len() - k,
    {
        assert(lv.take(k + 1).drop_last() =~= lv.take(k as int));
        assert(lv[k as int] == legacy_set[k as int]@);
        if !has_key(&runtime_keys, &legacy_set[k]) {
            let ghost before = missing.deep_view();
            missing.push(copy_range(&legacy_set[k], 0, legacy_set[k].len()));
            assert(legacy_set[k as int]@.subrange(0, legacy_set[k as int]@.len() as int) =~= legacy_set[k as int]@);
            assert(missing.deep_view() =~= before.push(lv[k as int]));
        }
        k = k + 1;
    }
    assert(lv.take(legacy_set.len() as int) =~= lv);
    let ghost mv = missing.deep_view();
    let ghost lraw = spec_legacy_usefs(cat);
    proof {
        lemma_sorted_set_size(lv, lraw);
        lemma_sorted_set_size(rv, scan);
        lemma_absent_ascending(lv, rv);
        lemma_absent_members(lv, rv);
        lemma_absent_members(lraw, scan);
        assert forall|x: Seq<char>| rv.contains(x) <==> scan.contains(x) by {
            if rv.contains(x) {
                let a = choose|a: int| 0 <= a < rv.len() && rv[a] == x;
                assert(scan.contains(rv[a]));
            }
            if scan.contains(x) {
                let a = choose|a: int| 0 <= a < scan.len() && scan[a] == x;
                assert(rv.contains(scan[a]));
            }
        }
        assert forall|x: Seq<char>| lv.contains(x) <==> lraw.contains(x) by {
            if lv.contains(x) {
                let a = choose|a: int| 0 <= a < lv.len() && lv[a] == x;
                assert(lraw.contains(lv[a]));
            }
            if lraw.contains(x) {
                let a = choose|a: int| 0 <= a < lraw.len() && lraw[a] == x;
                assert(lv.contains(lraw[a]));
            }
        }
        let target = spec_absent(lraw, scan);
        assert forall|a: int| 0 <= a < mv.len() implies target.contains(#[trigger] mv[a]) by {
            assert(mv.contains(mv[a]));
        }
        assert forall|a: int| 0 <= a < target.len() implies mv.contains(#[trigger] target[a]) by {
            assert(target.contains(target[a]));
        }
        assert(is_sorted_key_set(mv, target));
    }
    let mut details = chars_of("legacy_usef=");
    push_dec(&mut details, legacy_set.len() as u64);
    extend_str(&mut details, " runtime_tokens=");
    push_dec(&mut details, runtime.len() as u64);
    extend_str(&mut details, " missing=");
    if missing.len() == 0 {
        extend_str(&mut details, "<none>");
    } else {
        let sep = chars_of(",");
        let joined = join(&missing, &sep);
        extend(&mut details, &joined);
    }
    let r = MatrixCheck {
        id: string_of(&chars_of("legacy_usef_tokens_covered")),
        passed: missing.len() == 0,
        details: string_of(&details),
    };
    assert(check_views(seq![r])[0] == spec_usef_check(cat, core_source@, mv));
    r
}


fn check(id: &str, passed: bool, details: Vec<char>) -> (r: MatrixCheck)
    ensures
        check_views(seq![r])[0] == (CheckView { id: id@, passed, details: details@ }),
{
    MatrixCheck { id: string_of(&chars_of(id)), passed, details: string_of(&details) }
}

fn push_check(out: &mut Vec<MatrixCheck>, c: MatrixCheck)
    ensures
        check_views(final(out)@) == check_views(old(out)@).push(check_views(seq![c])[0]),
{
    let ghost before = check_views(out@);
    out.push(c);
    assert(check_views(out@) =~= before.push(check_views(seq![c])[0]));
}

// ---------------------------------------------------------------------------
// The item matrix
// ---------------------------------------------------------------------------

/// What the item trials observed: the legacy catalog's size and family
/// sizes, and the inventory after four pickups and a drop.
#[derive(Debug, Clone)]
pub struct ItemObservation {
    pub catalog_total: usize,
    pub weapons: usize,
    pub armor: usize,
    pub potions: usize,
    pub scrolls: usize,
    pub rings: usize,
    pub artifacts: usize,
    /// Whether each pickup reported an item picked up.
    pub pickups: Vec<bool>,
    pub dropped: bool,
    pub inventory_len: usize,
    pub ground_len: usize,
    pub typed_items: usize,
    pub usef_complete: bool,
    pub inventory_names: Vec<String>,
}

/// An inventory name with a placeholder signature.
pub open spec fn spec_placeholder_item_name(n: Seq<char>) -> bool {
    crate::text::spec_contains(n, "named-"@) || crate::text::spec_contains(n, "wishforged"@)
        || crate::text::spec_contains(n, "trinket"@)
}

/// The checks of the item matrix, in order, given the effect tokens that
/// are missing from the runtime's source.
pub open spec fn spec_item_checks(o: ItemObservation, catalog: Seq<Seq<char>>, source: Seq<char>, missing: Seq<Seq<char>>) -> Seq<CheckView> {
    seq![
        CheckView {
            id: "legacy_item_prototypes_loaded"@,
            passed: o.catalog_total == 223,
            details: "total="@ + spec_dec(o.catalog_total as nat),
        },
        CheckView {
            id: "legacy_item_family_cardinality"@,
            passed: o.weapons == 41 && o.armor == 17 && o.potions == 18 && o.scrolls == 24 && o.rings == 9
                && o.artifacts == 26,
            details: "weapon="@ + spec_dec(o.weapons as nat) + " armor="@ + spec_dec(o.armor as nat) + " potion="@
                + spec_dec(o.potions as nat) + " scroll="@ + spec_dec(o.scrolls as nat) + " ring="@ + spec_dec(
                o.rings as nat,
            ) + " artifact="@ + spec_dec(o.artifacts as nat),
        },
        CheckView {
            id: "pickup_modeled"@,
            passed: forall|i: int| 0 <= i < o.pickups.len() ==> #[trigger] o.pickups@[i],
            details: "inventory="@ + spec_dec(o.inventory_len as nat),
        },
        CheckView { id: "drop_modeled"@, passed: o.dropped, details: "ground="@ + spec_dec(o.ground_len as nat) },
        CheckView {
            id: "typed_inventory_metadata"@,
            passed: o.typed_items == o.inventory_len && o.usef_complete,
            details: "typed="@ + spec_dec(o.typed_items as nat) + "/"@ + spec_dec(o.inventory_len as nat)
                + " usef_complete="@ + crate::reports::spec_bool_text(o.usef_complete),
        },
        CheckView {
            id: "no_placeholder_item_names"@,
            passed: forall|i: int|
                0 <= i < o.inventory_names.len() ==> !spec_placeholder_item_name(#[trigger] o.inventory_names@[i]@),
            details: "inventory items avoid placeholder signatures"@,
        },
        spec_usef_check(catalog, source, missing),
    ]
}

fn all_true(v: &Vec<bool>) -> (r: bool)
    ensures
        r == forall|i: int| 0 <= i < v.len() ==> #[trigger] v@[i],
{
    let mut i: usize = 0;
    while i < v.len()
        invariant
            i <= v.len(),
            forall|k: int| 0 <= k < i ==> #[trigger] v@[k],
        decreases v.len() - i,
    {
        if !v[i] {
            return false;
        }
        i = i + 1;
    }
    true
}

fn names_clean(names: &Vec<String>) -> (r: bool)
    ensures
        r == forall|i: int| 0 <= i < names.len() ==> !spec_placeholder_item_name(#[trigger] names@[i]@),
{
    let mut i: usize = 0;
    while i < names.len()
        invariant
            i <= names.len(),
            forall|k: int| 0 <= k < i ==> !spec_placeholder_item_name(#[trigger] names@[k]@),
        decreases names.len() - i,
    {
        let n = chars_of(names[i].as_str());
        if crate::text::contains_str(&n, "named-") || crate::text::contains_str(&n, "wishforged")
            || crate::text::contains_str(&n, "trinket") {
            return false;
        }
        i = i + 1;
    }
    true
}

pub fn item_matrix_checks(o: &ItemObservation, catalog_usefs: &Vec<String>, core_source: &str) -> (r: Vec<MatrixCheck>)
    ensures
        exists|missing: Seq<Seq<char>>|
            is_sorted_key_set(missing, spec_absent(spec_legacy_usefs(texts_view(catalog_usefs@)), spec_usef_scan(core_source@, 0)))
                && check_views(r@) == spec_item_checks(*o, texts_view(catalog_usefs@), core_source@, missing),
{
    let mut out: Vec<MatrixCheck> = Vec::new();
    let mut d = chars_of("total=");
    push_dec(&mut d, o.catalog_total as u64);
    push_check(&mut out, check("legacy_item_prototypes_loaded", o.catalog_total == 223, d));
    let mut d = chars_of("weapon=");
    push_dec(&mut d, o.weapons as u64);
    extend_str(&mut d, " armor=");
    push_dec(&mut d, o.armor as u64);
    extend_str(&mut d, " potion=");
    push_dec(&mut d, o.potions as u64);
    extend_str(&mut d, " scroll=");
    push_dec(&mut d, o.scrolls as u64);
    extend_str(&mut d, " ring=");
    push_dec(&mut d, o.rings as u64);
    extend_str(&mut d, " artifact=");
    push_dec(&mut d, o.artifacts as u64);
    let fam = o.weapons == 41 && o.armor == 17 && o.potions == 18 && o.scrolls == 24 && o.rings == 9 && o.artifacts == 26;
    push_check(&mut out, check("legacy_item_family_cardinality", fam, d));
    let mut d = chars_of("inventory=");
    push_dec(&mut d, o.inventory_len as u64);
    push_check(&mut out, check("pickup_modeled", all_true(&o.pickups), d));
    let mut d = chars_of("ground=");
    push_dec(&mut d, o.ground_len as u64);
    push_check(&mut out, check("drop_modeled", o.dropped, d));
    let mut d = chars_of("typed=");
    push_dec(&mut d, o.typed_items as u64);
    extend_str(&mut d, "/");
    push_dec(&mut d, o.inventory_len as u64);
    extend_str(&mut d, " usef_complete=");
    crate::reports::push_bool(&mut d, o.usef_complete);
    push_check(&mut out, check("typed_inventory_metadata", o.typed_items == o.inventory_len && o.usef_complete, d));
    push_check(
        &mut out,
        check(
            "no_placeholder_item_names",
            names_clean(&o.inventory_names),
            chars_of("inventory items avoid placeholder signatures"),
        ),
    );
    let ghost six = check_views(out@);
    let u = usef_coverage_check(catalog_usefs, core_source);
    push_check(&mut out, u);
    proof {
        let missing = choose|missing: Seq<Seq<char>>|
            is_sorted_key_set(missing, spec_absent(spec_legacy_usefs(texts_view(catalog_usefs@)), spec_usef_scan(core_source@, 0)))
                && check_views(seq![u])[0] == spec_usef_check(texts_view(catalog_usefs@), core_source@, missing);
        assert(check_views(out@) =~= spec_item_checks(*o, texts_view(catalog_usefs@), core_source@, missing));
    }
    out
}

// ---------------------------------------------------------------------------
// The spell matrix
// ---------------------------------------------------------------------------

/// The spells that the refresh casts in turn.
pub open spec fn spec_trial_spells() -> Seq<Seq<char>> {
    seq![
        "monster detection"@, "object detection"@, "magic missile"@, "firebolt"@, "teleport"@,
        "ball lightning"@, "sleep"@, "disrupt"@, "disintegrate"@, "polymorph"@, "healing"@,
        "dispelling"@, "identification"@, "breathing"@, "invisibility"@, "the warp"@, "enchantment"@,
        "blessing"@, "restoration"@, "curing"@, "true sight"@, "hellfire"@, "self knowledge"@,
        "heroism"@, "return"@, "desecration"@, "haste"@, "summoning"@, "sanctuary"@, "accuracy"@,
        "ritual magic"@, "apportation"@, "shadow form"@, "alertness"@, "regeneration"@,
        "sanctification"@, "clairvoyance"@, "energy drain"@, "levitate"@, "fear"@, "wishing"@,
        "nutrition"@,
    ]
}

/// The spells that the refresh casts in turn, in order.
pub fn trial_spells() -> (r: Vec<String>)
    ensures
        texts_view(r@) == spec_trial_spells(),
{
    let names = vec![
        "monster detection", "object detection", "magic missile", "firebolt", "teleport",
        "ball lightning", "sleep", "disrupt", "disintegrate", "polymorph", "healing", "dispelling",
        "identification", "breathing", "invisibility", "the warp", "enchantment", "blessing",
        "restoration", "curing", "true sight", "hellfire", "self knowledge", "heroism", "return",
        "desecration", "haste", "summoning", "sanctuary", "accuracy", "ritual magic", "apportation",
        "shadow form", "alertness", "regeneration", "sanctification", "clairvoyance", "energy drain",
        "levitate", "fear", "wishing", "nutrition",
    ];
    let ghost target = spec_trial_spells();
    assert(names@.len() == target.len());
    let mut out: Vec<String> = Vec::new();
    let mut i: usize = 0;
    while i < names.len()
        invariant
            i <= names.len(),
            names@.len() == target.len(),
            target == spec_trial_spells(),
            forall|k: int| 0 <= k < names@.len() ==> names@[k]@ == target[k],
            texts_view(out@) == target.take(i as int),
        decreases names.len() - i,
    {
        let ghost before = texts_view(out@);
        out.push(string_of(&chars_of(names[i])));
        assert(texts_view(out@) =~= before.push(target[i as int]));
        assert(target.take(i + 1) =~= target.take(i as int).push(target[i as int]));
        i = i + 1;
    }
    assert(target.take(names.len() as int) =~= target);
    out
}

/// What casting one spell observed: whether the cast prompt opened,
/// whether the cast was fully modelled and whether mana was spent.
#[derive(Debug, Clone, Copy)]
pub struct SpellTrial {
    pub prompt_opened: bool,
    pub modeled: bool,
    pub mana_consumed: bool,
}

/// Which observation of a trial is counted.
#[derive(Debug, Clone, Copy, PartialEq, Eq, Structural)]
pub enum TrialFact {
    PromptOpened,
    Modeled,
    ManaConsumed,
}

pub open spec fn spec_fact(t: SpellTrial, f: TrialFact) -> bool {
    match f {
        TrialFact::PromptOpened => t.prompt_opened,
        TrialFact::Modeled => t.modeled,
        TrialFact::ManaConsumed => t.mana_consumed,
    }
}

pub open spec fn spec_trial_count(ts: Seq<SpellTrial>, f: TrialFact) -> nat
    decreases ts.len(),
{
    if ts.len() == 0 {
        0
    } else {
        spec_trial_count(ts.drop_last(), f) + if spec_fact(ts.last(), f) {
            1nat
        } else {
            0nat
        }
    }
}

fn trial_count(ts: &Vec<SpellTrial>, f: TrialFact) -> (r: usize)
    ensures
        r == spec_trial_count(ts@, f),
        r <= ts.len(),
{
    let mut n: usize = 0;
    let mut i: usize = 0;
    while i < ts.len()
        invariant
            i <= ts.len(),
            n == spec_trial_count(ts@.take(i as int), f),
            n <= i,
        decreases ts.len() - i,
    {
        assert(ts@.take(i + 1).drop_last() =~= ts@.take(i as int));
        let t = ts[i];
        let hit = match f {
            TrialFact::PromptOpened => t.prompt_opened,
            TrialFact::Modeled => t.modeled,
            TrialFact::ManaConsumed => t.mana_consumed,
        };
        if hit {
            n = n + 1;
        }
        i = i + 1;
    }
    assert(ts@.take(ts.len() as int) =~= ts@);
    n
}

/// The checks of the spell matrix: the catalog has 42 spells, and each of
/// the 42 trials opened the prompt, was fully modelled and spent mana.
pub open spec fn spec_spell_matrix_checks(catalog_spells: nat, ts: Seq<SpellTrial>) -> Seq<CheckView> {
    let modeled = spec_trial_count(ts, TrialFact::Modeled);
    let prompt = spec_trial_count(ts, TrialFact::PromptOpened);
    let mana = spec_trial_count(ts, TrialFact::ManaConsumed);
    seq![
        CheckView { id: "spell_catalog_42"@, passed: catalog_spells == 42, details: "catalog_spells="@ + spec_dec(catalog_spells) },
        CheckView { id: "spell_casts_modeled"@, passed: modeled == 42, details: "modeled="@ + spec_dec(modeled) + "/42"@ },
        CheckView { id: "spell_prompt_interactive"@, passed: prompt == 42, details: "prompt_opened="@ + spec_dec(prompt) + "/42"@ },
        CheckView { id: "spell_mana_consumed"@, passed: mana == 42, details: "mana_consumed_trials="@ + spec_dec(mana) + "/42"@ },
    ]
}

pub fn spell_matrix_checks(catalog_spells: usize, trials: &Vec<SpellTrial>) -> (r: Vec<MatrixCheck>)
    ensures
        check_views(r@) == spec_spell_matrix_checks(catalog_spells as nat, trials@),
{
    let modeled = trial_count(trials, TrialFact::Modeled);
    let prompt = trial_count(trials, TrialFact::PromptOpened);
    let mana = trial_count(trials, TrialFact::ManaConsumed);
    let mut out: Vec<MatrixCheck> = Vec::new();
    let mut d = chars_of("catalog_spells=");
    push_dec(&mut d, catalog_spells as u64);
    push_check(&mut out, check("spell_catalog_42", catalog_spells == 42, d));
    let mut d = chars_of("modeled=");
    push_dec(&mut d, modeled as u64);
    extend_str(&mut d, "/42");
    push_check(&mut out, check("spell_casts_modeled", modeled == 42, d));
    let mut d = chars_of("prompt_opened=");
    push_dec(&mut d, prompt as u64);
    extend_str(&mut d, "/42");
    push_check(&mut out, check("spell_prompt_interactive", prompt == 42, d));
    let mut d = chars_of("mana_consumed_trials=");
    push_dec(&mut d, mana as u64);
    extend_str(&mut d, "/42");
    push_check(&mut out, check("spell_mana_consumed", mana == 42, d));
    assert(check_views(out@) =~= spec_spell_matrix_checks(catalog_spells as nat, trials@));
    out
}

// ---------------------------------------------------------------------------
// The site matrix
// ---------------------------------------------------------------------------

/// A row of the site service matrix report, as its fields read.
#[derive(Debug, Clone)]
pub struct SiteRow {
    pub id: Option<String>,
    pub passed: Option<bool>,
    pub details: Option<String>,
}

pub open spec fn spec_site_row_check(r: SiteRow) -> CheckView {
    CheckView {
        id: match r.id {
            Some(s) => s@,
            None => "unknown"@,
        },
        passed: match r.passed {
            Some(b) => b,
            None => false,
        },
        details: match r.details {
            Some(s) => s@,
            None => Seq::empty(),
        },
    }
}

/// The site checks: the report's rows, or one failing check when the
/// report is missing.
pub open spec fn spec_site_checks(rows: Option<Seq<SiteRow>>) -> Seq<CheckView> {
    match rows {
        None => seq![
            CheckView {
                id: "site_runtime_matrix_missing"@,
                passed: false,
                details: "missing target/true-site-service-parity-matrix.json"@,
            },
        ],
        Some(rs) => Seq::new(rs.len(), |i: int| spec_site_row_check(rs[i])),
    }
}

pub open spec fn opt_rows_view(rows: Option<Vec<SiteRow>>) -> Option<Seq<SiteRow>> {
    match rows {
        Some(v) => Some(v@),
        None => None,
    }
}

/// The site matrix checks, given the rows of the site service matrix
/// report (`None` when the report is missing).
pub fn site_matrix_checks(rows: &Option<Vec<SiteRow>>) -> (r: Vec<MatrixCheck>)
    ensures
        check_views(r@) == spec_site_checks(opt_rows_view(*rows)),
{
    match rows {
        None => {
            let mut out: Vec<MatrixCheck> = Vec::new();
            push_check(
                &mut out,
                check("site_runtime_matrix_missing", false, chars_of("missing target/true-site-service-parity-matrix.json")),
            );
            assert(check_views(out@) =~= spec_site_checks(opt_rows_view(*rows)));
            out
        },
        Some(rs) => {
            let ghost target = spec_site_checks(opt_rows_view(*rows));
            let mut out: Vec<MatrixCheck> = Vec::new();
            let mut i: usize = 0;
            while i < rs.len()
                invariant
                    i <= rs.len(),
                    target == Seq::new(rs@.len(), |k: int| spec_site_row_check(rs@[k])),
                    check_views(out@) == target.take(i as int),
                decreases rs.len() - i,
            {
                let row = &rs[i];
                let id = match &row.id {
                    Some(s) => chars_of(s.as_str()),
                    None => chars_of("unknown"),
                };
                let passed = match row.passed {
                    Some(b) => b,
                    None => false,
                };
                let details = match &row.details {
                    Some(s) => chars_of(s.as_str()),
                    None => Vec::new(),
                };
                let ghost before = check_views(out@);
                out.push(MatrixCheck { id: string_of(&id), passed, details: string_of(&details) });
                assert(check_views(out@) =~= before.push(target[i as int]));
                assert(target.take(i + 1) =~= target.take(i as int).push(target[i as int]));
                i = i + 1;
            }
            assert(target.take(rs.len() as int) =~= target);
            out
        },
    }
}

} // verus!
