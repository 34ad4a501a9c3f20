//! Which replay fixtures may have their expectations re-recorded, and the
//! tag lists of generated fixtures.
use vstd::prelude::*;

use crate::replay::{string_views, FixtureMetadata};
use crate::tally::{is_sorted_key_set, sorted_key_set};
use crate::text::{chars_eq_str, chars_of, string_of};

verus! {

broadcast use crate::views::group_view_lemmas;

/// The hand-written fixtures whose expectations may be re-recorded.
pub open spec fn spec_handcrafted_allowlist() -> Seq<Seq<char>> {
    seq![
        "combat_defeat_monster"@,
        "movement_blocked_wall"@,
        "pickup_drop_cycle"@,
        "r3_site_arena"@,
        "r3_site_bank"@,
        "r3_site_castle_talk"@,
        "r3_site_charity"@,
        "r3_site_college"@,
        "r3_site_merc_guild"@,
        "r3_site_order_talk"@,
        "r3_site_shop"@,
        "r3_site_sorcerors"@,
        "r3_site_temple"@,
        "p5_city_service_social"@,
        "p5_countryside_hunt_travel"@,
        "p6_progression_wizard_branch"@,
        "p6_quest_social_branch"@,
    ]
}

pub fn handcrafted_allowlist(name: &str) -> (r: bool)
    ensures
        r == spec_handcrafted_allowlist().contains(name@),
{
    let allowed = vec![
        "combat_defeat_monster",
        "movement_blocked_wall",
        "pickup_drop_cycle",
        "r3_site_arena",
        "r3_site_bank",
        "r3_site_castle_talk",
        "r3_site_charity",
        "r3_site_college",
        "r3_site_merc_guild",
        "r3_site_order_talk",
        "r3_site_shop",
        "r3_site_sorcerors",
        "r3_site_temple",
        "p5_city_service_social",
        "p5_countryside_hunt_travel",
        "p6_progression_wizard_branch",
        "p6_quest_social_branch",
    ];
    let ghost target = spec_handcrafted_allowlist();
    assert(Seq::new(allowed@.len(), |i: int| allowed@[i]@) =~= target);
    let n = chars_of(name);
    let mut i: usize = 0;
    while i < allowed.len()
        invariant
            i <= allowed.len(),
            allowed@.len() == target.len(),
            target == spec_handcrafted_allowlist(),
            n@ == name@,
            forall|k: int| 0 <= k < allowed@.len() ==> allowed@[k]@ == target[k],
            forall|k: int| 0 <= k < i ==> target[k] != name@,
        decreases allowed.len() - i,
    {
        if chars_eq_str(&n, allowed[i]) {
            assert(target[i as int] == name@);
            return true;
        }
        i = i + 1;
    }
    false
}

/// A fixture of the current contract is re-recorded when it is on the
/// allowlist, unless it was generated by the matrix generator.
pub open spec fn spec_should_rebaseline(f: FixtureMetadata) -> bool {
    &&& f.contract_version == 1
    &&& f.source@ != "generated_matrix"@
    &&& spec_handcrafted_allowlist().contains(f.name@)
}

pub fn should_rebaseline(fixture: &FixtureMetadata) -> (r: bool)
    ensures
        r == spec_should_rebaseline(*fixture),
{
    if fixture.contract_version != 1 {
        return false;
    }
    let source = chars_of(fixture.source.as_str());
    if chars_eq_str(&source, "generated_matrix") {
        return false;
    }
    if chars_eq_str(&source, "legacy_handcrafted") || chars_eq_str(&source, "scenario_handcrafted") {
        return handcrafted_allowlist(fixture.name.as_str());
    }
    handcrafted_allowlist(fixture.name.as_str())
}

/// The tags of a generated fixture, sorted and without duplicates, with
/// `perf_smoke` added when asked for.
pub open spec fn is_normalized_tags(r: Seq<Seq<char>>, tags: Seq<Seq<char>>, include_perf_smoke: bool) -> bool {
    is_sorted_key_set(r, if include_perf_smoke { tags.push("perf_smoke"@) } else { tags })
}

pub fn normalize_tags(tags: &Vec<String>, include_perf_smoke: bool) -> (r: Vec<String>)
    ensures
        is_normalized_tags(string_views(r@), string_views(tags@), include_perf_smoke),
{
    let ghost tv = string_views(tags@);
    let mut keys: Vec<Vec<char>> = Vec::new();
    let mut i: usize = 0;
    while i < tags.len()
        invariant
            i <= tags.len(),
            tv == string_views(tags@),
            keys.deep_view() == tv.take(i as int),
        decreases tags.len() - i,
    {
        let ghost before = keys.deep_view();
        keys.push(chars_of(tags[i].as_str()));
        assert(keys.deep_view() =~= before.push(tv[i as int]));
        assert(tv.take(i + 1) =~= tv.take(i as int).push(tv[i as int]));
        i = i + 1;
    }
    assert(tv.take(tags.len() as int) =~= tv);
    if include_perf_smoke {
        let ghost before = keys.deep_view();
        keys.push(chars_of("perf_smoke"));
        assert(keys.deep_view() =~= before.push("perf_smoke"@));
    }
    let set = sorted_key_set(&keys);
    let mut out: Vec<String> = Vec::new();
    let mut k: usize = 0;
    while k < set.len()
        invariant
            k <= set.len(),
            string_views(out@) == set.deep_view().take(k as int),
        decreases set.len() - k,
    {
        let ghost before = string_views(out@);
        out.push(string_of(&set[k]));
        assert(set.deep_view()[k as int] == set[k as int]@);
        assert(string_views(out@) =~= before.push(set.deep_view()[k as int]));
        assert(set.deep_view().take(k + 1) =~= set.deep_view().take(k as int).push(set.deep_view()[k as int]));
        k = k + 1;
    }
    assert(set.deep_view().take(set.len() as int) =~= set.deep_view());
    out
}

} // verus!
