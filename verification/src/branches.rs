//! The branch contract of the guild and site handlers of the game core:
//! each handler's body is cut out of the source text, and every gate (a
//! condition or a match arm) and every effect (a state change or an emitted
//! outcome) in it becomes a numbered branch.
use vstd::prelude::*;

use crate::text::{chars_eq_str, chars_of, contains_str, extend, extend_str, join, spec_contains, spec_join, spec_starts_with, spec_words, split_whitespace, starts_with_str, string_of, spec_ends_with, ends_with_str, copy_range, find, lemma_find_bound, spec_find, spec_index_of_char, index_of_char, lemma_index_of_char, lemma_find_matches, trim, trim_end_char, trim_start, before_char, clone_chars, spec_trim, spec_trim_end_char, spec_trim_start, spec_before_char, spec_lines, lines, chars_eq, lex_lt, spec_lex_lt, lemma_lex_total, lemma_lex_irreflexive, push_dec, spec_dec, replace_char_str, spec_replace_char};
use crate::tally::{keys_ascending, lemma_insert_keeps_ascending, lemma_sorted_set_size, sorted_key_set};

verus! {

broadcast use crate::views::group_view_lemmas;

/// The talk handler of a guild or site service (empty for an unknown one).
pub open spec fn spec_handler_for_service(service: Seq<char>) -> Seq<char> {
    if service == "merc"@ {
        "apply_merc_talk_command"@
    } else if service == "thieves"@ {
        "apply_thieves_talk_command"@
    } else if service == "college"@ {
        "apply_college_talk_command"@
    } else if service == "sorcerors"@ {
        "apply_sorcerors_talk_command"@
    } else if service == "order"@ {
        "apply_order_talk_command"@
    } else if service == "castle"@ {
        "apply_castle_talk_command"@
    } else if service == "arena"@ {
        "apply_arena_talk_command"@
    } else if service == "temple"@ {
        "apply_temple_talk_command"@
    } else if service == "monastery"@ {
        "apply_monastery_talk_command"@
    } else if service == "palace"@ {
        "apply_palace_talk_command"@
    } else {
        ""@
    }
}

pub fn handler_for_service(service: &str) -> (r: &'static str)
    ensures
        r@ == spec_handler_for_service(service@),
{
    let s = chars_of(service);
    if chars_eq_str(&s, "merc") {
        "apply_merc_talk_command"
    } else if chars_eq_str(&s, "thieves") {
        "apply_thieves_talk_command"
    } else if chars_eq_str(&s, "college") {
        "apply_college_talk_command"
    } else if chars_eq_str(&s, "sorcerors") {
        "apply_sorcerors_talk_command"
    } else if chars_eq_str(&s, "order") {
        "apply_order_talk_command"
    } else if chars_eq_str(&s, "castle") {
        "apply_castle_talk_command"
    } else if chars_eq_str(&s, "arena") {
        "apply_arena_talk_command"
    } else if chars_eq_str(&s, "temple") {
        "apply_temple_talk_command"
    } else if chars_eq_str(&s, "monastery") {
        "apply_monastery_talk_command"
    } else if chars_eq_str(&s, "palace") {
        "apply_palace_talk_command"
    } else {
        ""
    }
}

/// The service of a site interaction kind, if it has one.
pub open spec fn spec_service_from_kind(kind: Seq<char>) -> Option<Seq<char>> {
    if kind == "MercGuild"@ {
        Some("merc"@)
    } else if kind == "ThievesGuild"@ {
        Some("thieves"@)
    } else if kind == "College"@ {
        Some("college"@)
    } else if kind == "Sorcerors"@ {
        Some("sorcerors"@)
    } else if kind == "Order"@ {
        Some("order"@)
    } else if kind == "Castle"@ {
        Some("castle"@)
    } else if kind == "Palace"@ {
        Some("palace"@)
    } else if kind == "Arena"@ {
        Some("arena"@)
    } else if kind == "Temple"@ || kind == "Altar"@ {
        Some("temple"@)
    } else if kind == "Monastery"@ {
        Some("monastery"@)
    } else {
        None
    }
}

pub open spec fn opt_str_view(o: Option<&'static str>) -> Option<Seq<char>> {
    match o {
        Some(s) => Some(s@),
        None => None,
    }
}

pub fn service_from_kind(kind: &str) -> (r: Option<&'static str>)
    ensures
        opt_str_view(r) == spec_service_from_kind(kind@),
{
    let k = chars_of(kind);
    if chars_eq_str(&k, "MercGuild") {
        Some("merc")
    } else if chars_eq_str(&k, "ThievesGuild") {
        Some("thieves")
    } else if chars_eq_str(&k, "College") {
        Some("college")
    } else if chars_eq_str(&k, "Sorcerors") {
        Some("sorcerors")
    } else if chars_eq_str(&k, "Order") {
        Some("order")
    } else if chars_eq_str(&k, "Castle") {
        Some("castle")
    } else if chars_eq_str(&k, "Palace") {
        Some("palace")
    } else if chars_eq_str(&k, "Arena") {
        Some("arena")
    } else if chars_eq_str(&k, "Temple") || chars_eq_str(&k, "Altar") {
        Some("temple")
    } else if chars_eq_str(&k, "Monastery") {
        Some("monastery")
    } else {
        None
    }
}

/// The words of a line joined by single spaces.
pub open spec fn spec_normalize_ws(line: Seq<char>) -> Seq<char> {
    spec_join(spec_words(line), " "@)
}

pub fn normalize_ws(line: &str) -> (r: String)
    ensures
        r@ == spec_normalize_ws(line@),
{
    let l = chars_of(line);
    let words = split_whitespace(&l);
    let sep = chars_of(" ");
    string_of(&join(&words, &sep))
}

/// A gate: a condition, an `else` branch, a `match`, or a match arm.
pub open spec fn spec_is_gate_line(line: Seq<char>) -> bool {
    ||| spec_starts_with(line, "if "@)
    ||| spec_starts_with(line, "if("@)
    ||| spec_starts_with(line, "if ("@)
    ||| spec_starts_with(line, "else if "@)
    ||| spec_starts_with(line, "else if("@)
    ||| spec_starts_with(line, "} else if "@)
    ||| line == "else {"@
    ||| line == "} else {"@
    ||| spec_starts_with(line, "match "@)
    ||| spec_contains(line, "=>"@)
}

pub fn is_gate_line(line: &str) -> (r: bool)
    ensures
        r == spec_is_gate_line(line@),
{
    let l = chars_of(line);
    starts_with_str(&l, "if ") || starts_with_str(&l, "if(") || starts_with_str(&l, "if (")
        || starts_with_str(&l, "else if ") || starts_with_str(&l, "else if(")
        || starts_with_str(&l, "} else if ") || chars_eq_str(&l, "else {") || chars_eq_str(&l, "} else {")
        || starts_with_str(&l, "match ") || contains_str(&l, "=>")
}

/// An effect: an assignment that touches game state, a call that mutates
/// state or inventory, or an outcome shown to the player.
pub open spec fn spec_is_effect_line(line: Seq<char>) -> bool {
    let touches_state = spec_contains(line, "state."@);
    let plain_assign = (spec_contains(line, " = "@) || spec_ends_with(line, " ="@) || spec_contains(line, " ="@))
        && !spec_contains(line, "=="@) && !spec_contains(line, "!="@) && !spec_contains(line, ">="@)
        && !spec_contains(line, "<="@) && !spec_contains(line, "=>"@);
    let has_assignment = plain_assign || spec_contains(line, "+="@) || spec_contains(line, "-="@)
        || spec_contains(line, "*="@) || spec_contains(line, "/="@) || spec_contains(line, "|="@)
        || spec_contains(line, "&="@);
    let mutating_state_call = spec_contains(line, "state.status_effects.retain("@)
        || spec_contains(line, "state.player.inventory.retain("@)
        || spec_contains(line, "state.player.inventory.push("@)
        || spec_contains(line, "state.log.push("@)
        || spec_contains(line, "state.map_spells_to_known"@)
        || spec_contains(line, "state.pending_site_interaction ="@)
        || spec_contains(line, "keep_open = "@);
    let mutating_helper_call = spec_contains(line, "add_item_to_inventory_or_ground"@)
        || spec_contains(line, "remove_item_by_id("@)
        || spec_contains(line, "start_arena_challenge("@)
        || spec_contains(line, "start_main_quest_from_dialogue("@)
        || spec_contains(line, "teach_first_unknown_from_pool("@)
        || spec_contains(line, "apply_altar_"@)
        || spec_contains(line, "mark_player_defeated("@)
        || spec_contains(line, "set_inventory_slot_item_id("@);
    let outcome_emission = spec_contains(line, "events.push("@) || spec_contains(line, "notes.push("@)
        || spec_contains(line, "format!("@) || spec_ends_with(line, ".to_string(),"@)
        || spec_ends_with(line, ".to_string()"@);
    (touches_state && has_assignment) || mutating_state_call || mutating_helper_call || outcome_emission
}

pub fn is_effect_line(line: &str) -> (r: bool)
    ensures
        r == spec_is_effect_line(line@),
{
    let l = chars_of(line);
    let touches_state = contains_str(&l, "state.");
    let plain_assign = (contains_str(&l, " = ") || ends_with_str(&l, " =") || contains_str(&l, " ="))
        && !contains_str(&l, "==") && !contains_str(&l, "!=") && !contains_str(&l, ">=")
        && !contains_str(&l, "<=") && !contains_str(&l, "=>");
    let has_assignment = plain_assign || contains_str(&l, "+=") || contains_str(&l, "-=")
        || contains_str(&l, "*=") || contains_str(&l, "/=") || contains_str(&l, "|=")
        || contains_str(&l, "&=");
    let mutating_state_call = contains_str(&l, "state.status_effects.retain(")
        || contains_str(&l, "state.player.inventory.retain(")
        || contains_str(&l, "state.player.inventory.push(")
        || contains_str(&l, "state.log.push(")
        || contains_str(&l, "state.map_spells_to_known")
        || contains_str(&l, "state.pending_site_interaction =")
        || contains_str(&l, "keep_open = ");
    let mutating_helper_call = contains_str(&l, "add_item_to_inventory_or_ground")
        || contains_str(&l, "remove_item_by_id(")
        || contains_str(&l, "start_arena_challenge(")
        || contains_str(&l, "start_main_quest_from_dialogue(")
        || contains_str(&l, "teach_first_unknown_from_pool(")
        || contains_str(&l, "apply_altar_")
        || contains_str(&l, "mark_player_defeated(")
        || contains_str(&l, "set_inventory_slot_item_id(");
    let outcome_emission = contains_str(&l, "events.push(") || contains_str(&l, "notes.push(")
        || contains_str(&l, "format!(") || ends_with_str(&l, ".to_string(),")
        || ends_with_str(&l, ".to_string()");
    (touches_state && has_assignment) || mutating_state_call || mutating_helper_call || outcome_emission
}

/// Where, scanning from `i` with `depth` braces open, the depth falls back
/// to zero: `{` opens and `}` closes.
pub open spec fn spec_close_at(t: Seq<char>, i: int, depth: int) -> Option<int>
    decreases t.len() - i,
{
    if i < 0 || i >= t.len() {
        None
    } else if t[i] == '{' {
        spec_close_at(t, i + 1, depth + 1)
    } else if t[i] == '}' {
        if depth - 1 == 0 {
            Some(i)
        } else {
            spec_close_at(t, i + 1, depth - 1)
        }
    } else {
        spec_close_at(t, i + 1, depth)
    }
}

/// The body of function `name` in `source`, braces included: from the
/// first `{` after the first `fn name(` to the brace that closes it.
pub open spec fn spec_extract_function_body(source: Seq<char>, name: Seq<char>) -> Option<Seq<char>> {
    match spec_find(source, "fn "@ + name + "("@) {
        None => None,
        Some(st) => {
            let k = spec_index_of_char(source.skip(st as int), '{');
            if st + k >= source.len() {
                None
            } else {
                match spec_close_at(source, (st + k) as int, 0) {
                    None => None,
                    Some(e) => Some(source.subrange((st + k) as int, e + 1)),
                }
            }
        },
    }
}

pub open spec fn opt_text_view(o: Option<String>) -> Option<Seq<char>> {
    match o {
        Some(s) => Some(s@),
        None => None,
    }
}

/// The index at which the brace opened at `bs` closes.
fn close_brace(s: &Vec<char>, bs: usize) -> (r: Option<usize>)
    requires
        bs < s.len(),
        s@[bs as int] == '{',
    ensures
        match r {
            Some(e) => spec_close_at(s@, bs as int, 0) == Some(e as int) && bs <= e < s.len(),
            None => spec_close_at(s@, bs as int, 0) is None,
        },
{
    let mut depth: usize = 0;
    let mut j: usize = bs;
    while j < s.len()
        invariant
            bs <= j <= s.len(),
            s@[bs as int] == '{',
            spec_close_at(s@, bs as int, 0) == spec_close_at(s@, j as int, depth as int),
            depth <= j - bs,
            j > bs ==> depth >= 1,
            j == bs ==> depth == 0,
        decreases s.len() - j,
    {
        let c = s[j];
        if c == '{' {
            depth = depth + 1;
        } else if c == '}' {
            if depth == 1 {
                return Some(j);
            }
            depth = depth - 1;
        }
        j = j + 1;
    }
    None
}

pub fn extract_function_body(source: &str, fn_name: &str) -> (r: Option<String>)
    ensures
        opt_text_view(r) == spec_extract_function_body(source@, fn_name@),
{
    let s = chars_of(source);
    let mut needle = chars_of("fn ");
    extend_str(&mut needle, fn_name);
    extend_str(&mut needle, "(");
    assert(needle@ == "fn "@ + fn_name@ + "("@);
    proof {
        lemma_find_bound(s@, needle@);
    }
    let st = match find(&s, &needle) {
        None => {
            return None;
        },
        Some(st) => st,
    };
    let rest = copy_range(&s, st, s.len());
    assert(rest@ == s@.skip(st as int));
    let k = index_of_char(&rest, '{');
    proof {
        lemma_index_of_char(rest@, '{');
    }
    if k >= rest.len() {
        return None;
    }
    let bs = st + k;
    assert(s@[bs as int] == rest@[k as int]);
    match close_brace(&s, bs) {
        None => None,
        Some(e) => Some(string_of(&copy_range(&s, bs, e + 1))),
    }
}

/// The service a line of the site-choice handler switches to: for a line
/// with `SiteInteractionKind::<Kind> ... =>`, `Some` of the kind's service
/// (`None` for a kind without one); `None` for any other line.
pub open spec fn spec_choice_switch(line: Seq<char>) -> Option<Option<Seq<char>>> {
    match spec_find(line, "SiteInteractionKind::"@) {
        None => None,
        Some(pos) => match spec_find(line.skip(pos as int), "=>"@) {
            None => None,
            Some(arrow) => {
                let token_raw = spec_trim(line.subrange(pos + 21int, pos + arrow as int));
                let words = spec_words(spec_trim_end_char(token_raw, ','));
                let word = if words.len() > 0 { words[0] } else { token_raw };
                let token = spec_trim(spec_before_char(word, '{'));
                Some(spec_service_from_kind(token))
            },
        },
    }
}

/// Segments gathered so far, keyed by service.
pub type SegmentMap = Map<Seq<char>, Seq<char>>;

/// One raw line of the site-choice handler: a kind line selects the
/// current service; while a service is selected, the raw line and a line
/// break are added to its segment.
pub open spec fn spec_segment_step(cur: Option<Seq<char>>, m: SegmentMap, raw: Seq<char>) -> (Option<Seq<char>>, SegmentMap) {
    let cur2 = match spec_choice_switch(spec_trim_start(raw)) {
        Some(svc) => svc,
        None => cur,
    };
    match cur2 {
        None => (cur2, m),
        Some(s) => (cur2, m.insert(s, (if m.dom().contains(s) { m[s] } else { Seq::empty() }) + raw + "\n"@)),
    }
}

pub open spec fn spec_segments(ls: Seq<Seq<char>>) -> (Option<Seq<char>>, SegmentMap)
    decreases ls.len(),
{
    if ls.len() == 0 {
        (None, Map::empty())
    } else {
        let (cur, m) = spec_segments(ls.drop_last());
        spec_segment_step(cur, m, ls.last())
    }
}

/// The segments of the site-choice handler by service: none when the
/// source has no such handler.
pub open spec fn spec_site_choice_segments(source: Seq<char>) -> SegmentMap {
    match spec_extract_function_body(source, "apply_site_interaction_choice"@) {
        None => Map::empty(),
        Some(body) => spec_segments(spec_lines(body)).1,
    }
}

pub open spec fn segment_keys(rv: Seq<(Seq<char>, Seq<char>)>) -> Seq<Seq<char>> {
    rv.map_values(|r: (Seq<char>, Seq<char>)| r.0)
}

/// `rv` lists the services of `m` once each, in ascending order, with
/// their segments.
pub open spec fn segments_match(rv: Seq<(Seq<char>, Seq<char>)>, m: SegmentMap) -> bool {
    &&& keys_ascending(segment_keys(rv))
    &&& forall|i: int| 0 <= i < rv.len() ==> m.dom().contains(#[trigger] rv[i].0) && m[rv[i].0] == rv[i].1
    &&& forall|k: Seq<char>| m.dom().contains(k) ==> segment_keys(rv).contains(k)
}

spec fn seg_rows_view(v: Seq<(Vec<char>, Vec<char>)>) -> Seq<(Seq<char>, Seq<char>)> {
    v.map_values(|r: (Vec<char>, Vec<char>)| (r.0@, r.1@))
}

pub open spec fn segments_view(v: Seq<(String, String)>) -> Seq<(Seq<char>, Seq<char>)> {
    v.map_values(|r: (String, String)| (r.0@, r.1@))
}

fn choice_switch(line: &Vec<char>) -> (r: Option<Option<&'static str>>)
    ensures
        match r {
            None => spec_choice_switch(line@) is None,
            Some(o) => spec_choice_switch(line@) == Some(opt_str_view(o)),
        },
{
    let kind = chars_of("SiteInteractionKind::");
    proof {
        lemma_find_bound(line@, kind@);
        lemma_find_matches(line@, kind@);
        reveal_strlit("SiteInteractionKind::");
        reveal_strlit("=>");
    }
    let pos = match find(line, &kind) {
        None => {
            return None;
        },
        Some(pos) => pos,
    };
    let rest = copy_range(line, pos, line.len());
    assert(rest@ == line@.skip(pos as int));
    let arrow_pat = chars_of("=>");
    proof {
        lemma_find_bound(rest@, arrow_pat@);
        lemma_find_matches(rest@, arrow_pat@);
    }
    let arrow = match find(&rest, &arrow_pat) {
        None => {
            return None;
        },
        Some(a) => a,
    };
    proof {
        assert(rest@.skip(arrow as int).subrange(0, 2) == "=>"@);
        assert(rest@.skip(arrow as int).subrange(0, 2)[0] == '=');
        assert(rest@.skip(arrow as int)[0] == '=');
        if arrow < 21 {
            assert(rest@.subrange(0, 21) == "SiteInteractionKind::"@);
            assert(rest@[arrow as int] == rest@.subrange(0, 21)[arrow as int]);
        }
    }
    let token_raw = trim(&copy_range(line, pos + 21, pos + arrow));
    let stripped = trim_end_char(&token_raw, ',');
    let words = split_whitespace(&stripped);
    let word = if words.len() > 0 {
        assert(words.deep_view()[0] == words[0]@);
        clone_chars(&words[0])
    } else {
        clone_chars(&token_raw)
    };
    let token = trim(&before_char(&word, '{'));
    let svc = service_from_kind_chars(&token);
    Some(svc)
}

/// `service_from_kind` on a text held as characters.
fn service_from_kind_chars(k: &Vec<char>) -> (r: Option<&'static str>)
    ensures
        opt_str_view(r) == spec_service_from_kind(k@),
{
    let s = string_of(k);
    service_from_kind(s.as_str())
}

fn find_segment(rows: &Vec<(Vec<char>, Vec<char>)>, key: &Vec<char>) -> (r: Option<usize>)
    ensures
        match r {
            Some(i) => i < rows.len() && rows@[i as int].0@ == key@,
            None => !segment_keys(seg_rows_view(rows@)).contains(key@),
        },
{
    let mut i: usize = 0;
    while i < rows.len()
        invariant
            i <= rows.len(),
            forall|j: int| 0 <= j < i ==> rows@[j].0@ != key@,
        decreases rows.len() - i,
    {
        if chars_eq(&rows[i].0, key) {
            return Some(i);
        }
        i = i + 1;
    }
    assert forall|j: int| 0 <= j < segment_keys(seg_rows_view(rows@)).len() implies segment_keys(seg_rows_view(rows@))[j] != key@ by {
        assert(segment_keys(seg_rows_view(rows@))[j] == rows@[j].0@);
    }
    None
}

/// The number of leading segments whose service is below `key`.
fn segment_insertion_point(rows: &Vec<(Vec<char>, Vec<char>)>, key: &Vec<char>) -> (p: usize)
    ensures
        p <= rows.len(),
        forall|a: int| 0 <= a < p ==> spec_lex_lt(rows@[a].0@, key@),
        p < rows.len() ==> !spec_lex_lt(rows@[p as int].0@, key@),
{
    let mut p: usize = 0;
    while p < rows.len()
        invariant
            p <= rows.len(),
            forall|a: int| 0 <= a < p ==> spec_lex_lt(rows@[a].0@, key@),
        decreases rows.len() - p,
    {
        if !lex_lt(&rows[p].0, key) {
            return p;
        }
        p = p + 1;
    }
    p
}

/// Appends `raw` and a line break to the segment of `key`, starting one
/// where there is none.
fn append_segment(rows: &mut Vec<(Vec<char>, Vec<char>)>, key: &Vec<char>, raw: &Vec<char>, Ghost(m): Ghost<SegmentMap>)
    requires
        segments_match(seg_rows_view(old(rows)@), m),
    ensures
        segments_match(
            seg_rows_view(final(rows)@),
            m.insert(key@, (if m.dom().contains(key@) { m[key@] } else { Seq::empty() }) + raw@ + "\n"@),
        ),
{
    let ghost rv = seg_rows_view(rows@);
    let ghost ks = segment_keys(rv);
    let ghost m2 = m.insert(key@, (if m.dom().contains(key@) { m[key@] } else { Seq::empty() }) + raw@ + "\n"@);
    match find_segment(rows, key) {
        Some(k) => {
            assert(rv[k as int].0 == key@);
            let mut seg = clone_chars(&rows[k].1);
            extend(&mut seg, raw);
            extend_str(&mut seg, "\n");
            rows.set(k, (clone_chars(key), seg));
            let ghost nv = seg_rows_view(rows@);
            assert(nv =~= rv.update(k as int, (key@, m2[key@])));
            assert(segment_keys(nv) =~= ks);
            assert forall|i: int| 0 <= i < nv.len() implies m2.dom().contains(#[trigger] nv[i].0) && m2[nv[i].0] == nv[i].1 by {
                if i != k {
                    assert(nv[i] == rv[i]);
                    assert(ks[i] != ks[k as int]) by {
                        if i < k {
                            lemma_lex_irreflexive(ks[i]);
                        } else {
                            lemma_lex_irreflexive(ks[k as int]);
                        }
                    }
                }
            }
            return;
        },
        None => {},
    }
    let p = segment_insertion_point(rows, key);
    proof {
        if p < rows.len() {
            assert(ks[p as int] == rows@[p as int].0@);
            assert(ks[p as int] != key@);
            lemma_lex_total(ks[p as int], key@);
        }
        assert forall|a: int| 0 <= a < p implies spec_lex_lt(ks[a], key@) by {
            assert(ks[a] == rows@[a].0@);
        }
        lemma_insert_keeps_ascending(ks, p as int, key@);
        assert(!m.dom().contains(key@));
    }
    let mut seg = clone_chars(raw);
    extend_str(&mut seg, "\n");
    assert(seg@ =~= Seq::<char>::empty() + raw@ + "\n"@);
    rows.insert(p, (clone_chars(key), seg));
    let ghost nv = seg_rows_view(rows@);
    assert(nv =~= rv.insert(p as int, (key@, m2[key@])));
    assert(segment_keys(nv) =~= ks.insert(p as int, key@));
    assert forall|i: int| 0 <= i < nv.len() implies m2.dom().contains(#[trigger] nv[i].0) && m2[nv[i].0] == nv[i].1 by {
        if i < p {
            assert(nv[i] == rv[i]);
            assert(ks[i] == rv[i].0);
        } else if i > p {
            assert(nv[i] == rv[i - 1]);
            assert(ks[i - 1] == rv[i - 1].0);
        }
    }
    assert forall|k: Seq<char>| m2.dom().contains(k) implies segment_keys(nv).contains(k) by {
        if k == key@ {
            assert(segment_keys(nv)[p as int] == key@);
        } else {
            assert(ks.contains(k));
            let g = choose|g: int| 0 <= g < ks.len() && ks[g] == k;
            if g < p {
                assert(segment_keys(nv)[g] == k);
            } else {
                assert(segment_keys(nv)[g + 1] == k);
            }
        }
    }
}

/// The segments of the site-choice handler, one per service it handles, in
/// ascending service order.
pub fn extract_site_choice_segments(source: &str) -> (r: Vec<(String, String)>)
    ensures
        segments_match(segments_view(r@), spec_site_choice_segments(source@)),
{
    let body = match extract_function_body(source, "apply_site_interaction_choice") {
        None => {
            let r: Vec<(String, String)> = Vec::new();
            assert(segment_keys(segments_view(r@)) =~= Seq::<Seq<char>>::empty());
            return r;
        },
        Some(b) => b,
    };
    let text = chars_of(body.as_str());
    let ls = lines(&text);
    let ghost lv = ls.deep_view();
    let mut cur: Option<&'static str> = None;
    let mut rows: Vec<(Vec<char>, Vec<char>)> = Vec::new();
    let mut i: usize = 0;
    assert(segment_keys(seg_rows_view(rows@)) =~= Seq::<Seq<char>>::empty());
    while i < ls.len()
        invariant
            i <= ls.len(),
            lv == ls.deep_view(),
            opt_str_view(cur) == spec_segments(lv.take(i as int)).0,
            segments_match(seg_rows_view(rows@), spec_segments(lv.take(i as int)).1),
        decreases ls.len() - i,
    {
        let ghost m = spec_segments(lv.take(i as int)).1;
        assert(lv.take(i + 1).drop_last() =~= lv.take(i as int));
        assert(lv[i as int] == ls[i as int]@);
        let raw = &ls[i];
        let line = trim_start(raw);
        match choice_switch(&line) {
            Some(svc) => {
                cur = svc;
            },
            None => {},
        }
        match cur {
            None => {},
            Some(svc) => {
                let key = chars_of(svc);
                append_segment(&mut rows, &key, raw, Ghost(m));
            },
        }
        i = i + 1;
    }
    assert(lv.take(ls.len() as int) =~= lv);
    let mut out: Vec<(String, String)> = Vec::new();
    let mut k: usize = 0;
    while k < rows.len()
        invariant
            k <= rows.len(),
            segments_view(out@) == seg_rows_view(rows@).take(k as int),
        decreases rows.len() - k,
    {
        let ghost before = segments_view(out@);
        out.push((string_of(&rows[k].0), string_of(&rows[k].1)));
        assert(segments_view(out@) =~= before.push(seg_rows_view(rows@)[k as int]));
        assert(seg_rows_view(rows@).take(k + 1) =~= seg_rows_view(rows@).take(k as int).push(seg_rows_view(rows@)[k as int]));
        k = k + 1;
    }
    assert(seg_rows_view(rows@).take(rows.len() as int) =~= seg_rows_view(rows@));
    out
}

// ---------------------------------------------------------------------------
// Branch rows
// ---------------------------------------------------------------------------

#[derive(Debug, Clone)]
pub struct RustBranchRow {
    pub branch_id: String,
    pub service: String,
    pub handler: String,
    pub kind: String,
    pub predicate: String,
}

pub struct BranchView {
    pub branch_id: Seq<char>,
    pub service: Seq<char>,
    pub handler: Seq<char>,
    pub kind: Seq<char>,
    pub predicate: Seq<char>,
}

pub open spec fn branch_view(r: RustBranchRow) -> BranchView {
    BranchView { branch_id: r.branch_id@, service: r.service@, handler: r.handler@, kind: r.kind@, predicate: r.predicate@ }
}

pub open spec fn branch_views(v: Seq<RustBranchRow>) -> Seq<BranchView> {
    Seq::new(v.len(), |i: int| branch_view(v[i]))
}

/// `<service>/<bucket>/<kind>/<n>` names the n-th branch of a kind.
pub open spec fn spec_numbered_row(service: Seq<char>, handler: Seq<char>, bucket: Seq<char>, kind: Seq<char>, n: nat, predicate: Seq<char>) -> BranchView {
    BranchView {
        branch_id: service + "/"@ + bucket + "/"@ + kind + "/"@ + spec_dec(n),
        service,
        handler,
        kind,
        predicate,
    }
}

/// The rows of the lines seen so far, with the numbers of gates and
/// effects among them.
pub open spec fn spec_line_rows(service: Seq<char>, handler: Seq<char>, bucket: Seq<char>, ls: Seq<Seq<char>>) -> (Seq<BranchView>, nat, nat)
    decreases ls.len(),
{
    if ls.len() == 0 {
        (Seq::empty(), 0, 0)
    } else {
        let (rows, g, e) = spec_line_rows(service, handler, bucket, ls.drop_last());
        let line = spec_normalize_ws(ls.last());
        if spec_is_gate_line(line) {
            (rows.push(spec_numbered_row(service, handler, bucket, "gate"@, g + 1, line)), g + 1, e)
        } else if spec_is_effect_line(line) {
            (rows.push(spec_numbered_row(service, handler, bucket, "effect"@, e + 1, line)), g, e + 1)
        } else {
            (rows, g, e)
        }
    }
}

/// The rows of one handler body: an entry row, then a row per gate and
/// per effect, numbered separately, each with the line's words as its
/// predicate.
pub open spec fn spec_collect_rows(service: Seq<char>, handler: Seq<char>, body: Seq<char>, bucket: Seq<char>) -> Seq<BranchView> {
    seq![BranchView {
        branch_id: service + "/"@ + bucket + "/entry"@,
        service,
        handler,
        kind: "entry"@,
        predicate: "always"@,
    }] + spec_line_rows(service, handler, bucket, spec_lines(body)).0
}

fn text(s: &str) -> (r: String)
    ensures
        r@ == s@,
{
    string_of(&chars_of(s))
}

fn numbered_row(service: &str, handler: &str, bucket: &str, kind: &str, n: u64, predicate: String) -> (r: RustBranchRow)
    ensures
        branch_view(r) == spec_numbered_row(service@, handler@, bucket@, kind@, n as nat, predicate@),
{
    let mut id = chars_of(service);
    extend_str(&mut id, "/");
    extend_str(&mut id, bucket);
    extend_str(&mut id, "/");
    extend_str(&mut id, kind);
    extend_str(&mut id, "/");
    push_dec(&mut id, n);
    RustBranchRow {
        branch_id: string_of(&id),
        service: text(service),
        handler: text(handler),
        kind: text(kind),
        predicate,
    }
}

fn push_row(out: &mut Vec<RustBranchRow>, r: RustBranchRow)
    ensures
        branch_views(final(out)@) == branch_views(old(out)@).push(branch_view(r)),
{
    let ghost before = branch_views(out@);
    out.push(r);
    assert(branch_views(out@) =~= before.push(branch_view(r)));
}

pub fn collect_rows(service: &str, handler: &str, body: &str, bucket: &str) -> (r: Vec<RustBranchRow>)
    ensures
        branch_views(r@) == spec_collect_rows(service@, handler@, body@, bucket@),
{
    let mut rows: Vec<RustBranchRow> = Vec::new();
    let mut id = chars_of(service);
    extend_str(&mut id, "/");
    extend_str(&mut id, bucket);
    extend_str(&mut id, "/entry");
    push_row(&mut rows, RustBranchRow {
        branch_id: string_of(&id),
        service: text(service),
        handler: text(handler),
        kind: text("entry"),
        predicate: text("always"),
    });
    let ghost head = branch_views(rows@);
    let t = chars_of(body);
    let ls = lines(&t);
    let ghost lv = ls.deep_view();
    let mut gate_idx: u64 = 0;
    let mut effect_idx: u64 = 0;
    let mut i: usize = 0;
    while i < ls.len()
        invariant
            i <= ls.len(),
            lv == ls.deep_view(),
            lv == spec_lines(body@),
            branch_views(rows@) == head + spec_line_rows(service@, handler@, bucket@, lv.take(i as int)).0,
            gate_idx == spec_line_rows(service@, handler@, bucket@, lv.take(i as int)).1,
            effect_idx == spec_line_rows(service@, handler@, bucket@, lv.take(i as int)).2,
            gate_idx <= i,
            effect_idx <= i,
        decreases ls.len() - i,
    {
        assert(lv.take(i + 1).drop_last() =~= lv.take(i as int));
        assert(lv[i as int] == ls[i as int]@);
        let raw = string_of(&ls[i]);
        let line = normalize_ws(raw.as_str());
        if is_gate_line(line.as_str()) {
            gate_idx = gate_idx + 1;
            push_row(&mut rows, numbered_row(service, handler, bucket, "gate", gate_idx, line));
        } else if is_effect_line(line.as_str()) {
            effect_idx = effect_idx + 1;
            push_row(&mut rows, numbered_row(service, handler, bucket, "effect", effect_idx, line));
        }
        i = i + 1;
    }
    assert(lv.take(ls.len() as int) =~= lv);
    rows
}

// ---------------------------------------------------------------------------
// The contract
// ---------------------------------------------------------------------------

#[derive(Debug, Clone)]
pub struct RustSiteBranchContract {
    pub source: String,
    pub total_branches: usize,
    pub services: usize,
    pub pass: bool,
    pub branches: Vec<RustBranchRow>,
}

/// The services whose handlers the contract covers, in order.
pub open spec fn spec_contract_services() -> Seq<Seq<char>> {
    seq!["merc"@, "thieves"@, "college"@, "sorcerors"@, "order"@, "castle"@, "palace"@, "arena"@, "temple"@, "monastery"@]
}

/// The rows of one service: a `missing` row when its talk handler is not in
/// the source; else the talk handler's rows and, when the site-choice
/// handler has a segment for the service, that segment's rows.
pub open spec fn spec_service_rows(source: Seq<char>, service: Seq<char>) -> Seq<BranchView> {
    let handler = spec_handler_for_service(service);
    if handler.len() == 0 {
        Seq::empty()
    } else {
        match spec_extract_function_body(source, handler) {
            None => seq![BranchView {
                branch_id: service + "/missing"@,
                service,
                handler,
                kind: "missing"@,
                predicate: "handler_not_found"@,
            }],
            Some(body) => {
                let segs = spec_site_choice_segments(source);
                spec_collect_rows(service, handler, body, "talk"@) + if segs.dom().contains(service) {
                    spec_collect_rows(service, "apply_site_interaction_choice::"@ + service, segs[service], "choice"@)
                } else {
                    Seq::empty()
                }
            },
        }
    }
}

/// The rows of the services, one service after the other.
pub open spec fn spec_contract_rows(source: Seq<char>, services: Seq<Seq<char>>) -> Seq<BranchView>
    decreases services.len(),
{
    if services.len() == 0 {
        Seq::empty()
    } else {
        spec_contract_rows(source, services.drop_last()) + spec_service_rows(source, services.last())
    }
}

pub open spec fn row_services(rows: Seq<BranchView>) -> Seq<Seq<char>> {
    rows.map_values(|r: BranchView| r.service)
}

pub open spec fn spec_any_missing(rows: Seq<BranchView>) -> bool {
    exists|i: int| 0 <= i < rows.len() && (#[trigger] rows[i]).kind == "missing"@
}

/// The branch contract of a source text: every row of every service, the
/// number of distinct services among them, and a pass when no handler is
/// missing.
pub open spec fn is_contract_of(c: RustSiteBranchContract, source: Seq<char>) -> bool {
    let rows = spec_contract_rows(source, spec_contract_services());
    &&& c.source@ == "crates/omega-core/src/lib.rs"@
    &&& branch_views(c.branches@) == rows
    &&& c.total_branches == rows.len()
    &&& c.services == row_services(rows).to_set().len()
    &&& c.pass == !spec_any_missing(rows)
}

fn segment_of(segs: &Vec<(String, String)>, service: &str, Ghost(m): Ghost<SegmentMap>) -> (r: Option<String>)
    requires
        segments_match(segments_view(segs@), m),
    ensures
        match r {
            Some(s) => m.dom().contains(service@) && s@ == m[service@],
            None => !m.dom().contains(service@),
        },
{
    let key = chars_of(service);
    let ghost sv = segments_view(segs@);
    let mut i: usize = 0;
    while i < segs.len()
        invariant
            i <= segs.len(),
            sv == segments_view(segs@),
            segments_match(sv, m),
            key@ == service@,
            forall|j: int| 0 <= j < i ==> sv[j].0 != service@,
        decreases segs.len() - i,
    {
        let k = chars_of(segs[i].0.as_str());
        assert(sv[i as int] == (segs[i as int].0@, segs[i as int].1@));
        assert(k@ == sv[i as int].0);
        if chars_eq(&k, &key) {
            assert(sv[i as int].0 == service@);
            return Some(segs[i].1.clone());
        }
        i = i + 1;
    }
    proof {
        if m.dom().contains(service@) {
            assert(segment_keys(sv).contains(service@));
            let g = choose|g: int| 0 <= g < segment_keys(sv).len() && segment_keys(sv)[g] == service@;
            assert(sv[g].0 == service@);
        }
    }
    None
}

fn service_rows(source: &str, service: &str, segs: &Vec<(String, String)>) -> (r: Vec<RustBranchRow>)
    requires
        segments_match(segments_view(segs@), spec_site_choice_segments(source@)),
    ensures
        branch_views(r@) == spec_service_rows(source@, service@),
{
    let handler = handler_for_service(service);
    let hchars = chars_of(handler);
    if hchars.len() == 0 {
        let r: Vec<RustBranchRow> = Vec::new();
        assert(branch_views(r@) =~= Seq::<BranchView>::empty());
        return r;
    }
    match extract_function_body(source, handler) {
        None => {
            let mut id = chars_of(service);
            extend_str(&mut id, "/missing");
            let mut r: Vec<RustBranchRow> = Vec::new();
            push_row(&mut r, RustBranchRow {
                branch_id: string_of(&id),
                service: text(service),
                handler: text(handler),
                kind: text("missing"),
                predicate: text("handler_not_found"),
            });
            assert(branch_views(r@) =~= spec_service_rows(source@, service@));
            r
        },
        Some(body) => {
            let mut rows = collect_rows(service, handler, body.as_str(), "talk");
            let ghost talk = branch_views(rows@);
            match segment_of(segs, service, Ghost(spec_site_choice_segments(source@))) {
                Some(seg) => {
                    let mut h = chars_of("apply_site_interaction_choice::");
                    extend_str(&mut h, service);
                    let hs = string_of(&h);
                    let more = collect_rows(service, hs.as_str(), seg.as_str(), "choice");
                    let ghost mv = branch_views(more@);
                    let mut k: usize = 0;
                    while k < more.len()
                        invariant
                            k <= more.len(),
                            mv == branch_views(more@),
                            branch_views(rows@) == talk + mv.take(k as int),
                        decreases more.len() - k,
                    {
                        push_row(&mut rows, more[k].clone_row());
                        assert(mv.take(k + 1) =~= mv.take(k as int).push(mv[k as int]));
                        k = k + 1;
                    }
                    assert(mv.take(more.len() as int) =~= mv);
                },
                None => {
                    assert(talk + Seq::<BranchView>::empty() =~= talk);
                },
            }
            rows
        },
    }
}

impl RustBranchRow {
    /// A copy of the row.
    pub fn clone_row(&self) -> (r: RustBranchRow)
        ensures
            branch_view(r) == branch_view(*self),
    {
        RustBranchRow {
            branch_id: self.branch_id.clone(),
            service: self.service.clone(),
            handler: self.handler.clone(),
            kind: self.kind.clone(),
            predicate: self.predicate.clone(),
        }
    }
}

pub open spec fn strs_view(v: Seq<&'static str>) -> Seq<Seq<char>> {
    Seq::new(v.len(), |i: int| v[i]@)
}

fn contract_services() -> (r: Vec<&'static str>)
    ensures
        strs_view(r@) == spec_contract_services(),
{
    let r = vec!["merc", "thieves", "college", "sorcerors", "order", "castle", "palace", "arena", "temple", "monastery"];
    assert(strs_view(r@) =~= spec_contract_services());
    r
}

fn append_rows(rows: &mut Vec<RustBranchRow>, more: &Vec<RustBranchRow>)
    ensures
        branch_views(final(rows)@) == branch_views(old(rows)@) + branch_views(more@),
{
    let ghost start = branch_views(rows@);
    let ghost mv = branch_views(more@);
    let mut k: usize = 0;
    while k < more.len()
        invariant
            k <= more.len(),
            mv == branch_views(more@),
            branch_views(rows@) == start + mv.take(k as int),
        decreases more.len() - k,
    {
        push_row(rows, more[k].clone_row());
        assert(mv.take(k + 1) =~= mv.take(k as int).push(mv[k as int]));
        k = k + 1;
    }
    assert(mv.take(more.len() as int) =~= mv);
}

/// The branch contract of the game core's source text.
pub fn site_branch_contract(source: &str) -> (r: RustSiteBranchContract)
    ensures
        is_contract_of(r, source@),
{
    let services = contract_services();
    let ghost sv = strs_view(services@);
    let segs = extract_site_choice_segments(source);
    let mut rows: Vec<RustBranchRow> = Vec::new();
    let mut i: usize = 0;
    while i < services.len()
        invariant
            i <= services.len(),
            sv == strs_view(services@),
            segments_match(segments_view(segs@), spec_site_choice_segments(source@)),
            branch_views(rows@) == spec_contract_rows(source@, sv.take(i as int)),
        decreases services.len() - i,
    {
        assert(sv.take(i + 1).drop_last() =~= sv.take(i as int));
        assert(sv[i as int] == services[i as int]@);
        let more = service_rows(source, services[i], &segs);
        append_rows(&mut rows, &more);
        i = i + 1;
    }
    assert(sv.take(services.len() as int) =~= sv);
    let ghost rv = branch_views(rows@);
    let mut keys: Vec<Vec<char>> = Vec::new();
    let mut missing = false;
    let mut k: usize = 0;
    while k < rows.len()
        invariant
            k <= rows.len(),
            rv == branch_views(rows@),
            keys.deep_view() == row_services(rv).take(k as int),
            missing == exists|j: int| 0 <= j < k && (#[trigger] rv[j]).kind == "missing"@,
        decreases rows.len() - k,
    {
        let ghost before = keys.deep_view();
        keys.push(chars_of(rows[k].service.as_str()));
        assert(keys.deep_view() =~= before.push(rv[k as int].service));
        assert(row_services(rv).take(k + 1) =~= row_services(rv).take(k as int).push(rv[k as int].service));
        let kind = chars_of(rows[k].kind.as_str());
        if chars_eq_str(&kind, "missing") {
            assert(rv[k as int].kind == "missing"@);
            missing = true;
        }
        k = k + 1;
    }
    assert(row_services(rv).take(rows.len() as int) =~= row_services(rv));
    let set = sorted_key_set(&keys);
    proof {
        lemma_sorted_set_size(set.deep_view(), keys.deep_view());
    }
    let total = rows.len();
    RustSiteBranchContract {
        source: text("crates/omega-core/src/lib.rs"),
        total_branches: total,
        services: set.len(),
        pass: !missing,
        branches: rows,
    }
}

pub open spec fn spec_contract_row_md(r: BranchView) -> Seq<char> {
    "| "@ + r.branch_id + " | "@ + r.service + " | "@ + r.handler + " | "@ + r.kind + " | "@
        + spec_replace_char(r.predicate, '|', "\\|"@) + " |\n"@
}

pub open spec fn spec_contract_rows_md(rows: Seq<BranchView>) -> Seq<char>
    decreases rows.len(),
{
    if rows.len() == 0 {
        Seq::empty()
    } else {
        spec_contract_rows_md(rows.drop_last()) + spec_contract_row_md(rows.last())
    }
}

/// The Markdown rendering of a branch contract; `|` in predicates is
/// escaped.
pub open spec fn spec_contract_markdown(c: RustSiteBranchContract) -> Seq<char> {
    "# Rust Site Branch Contract\n\n- services: `"@ + spec_dec(c.services as nat) + "`\n- total_branches: `"@
        + spec_dec(c.total_branches as nat)
        + "`\n\n| Branch ID | Service | Handler | Kind | Predicate |\n|---|---|---|---|---|\n"@
        + spec_contract_rows_md(branch_views(c.branches@))
}

fn push_contract_row(out: &mut Vec<char>, r: &RustBranchRow)
    ensures
        final(out)@ == old(out)@ + spec_contract_row_md(branch_view(*r)),
{
    extend_str(out, "| ");
    extend_str(out, r.branch_id.as_str());
    extend_str(out, " | ");
    extend_str(out, r.service.as_str());
    extend_str(out, " | ");
    extend_str(out, r.handler.as_str());
    extend_str(out, " | ");
    extend_str(out, r.kind.as_str());
    extend_str(out, " | ");
    let p = chars_of(r.predicate.as_str());
    let escaped = replace_char_str(&p, '|', "\\|");
    extend(out, &escaped);
    extend_str(out, " |\n");
}

pub fn contract_markdown(c: &RustSiteBranchContract) -> (r: String)
    ensures
        r@ == spec_contract_markdown(*c),
{
    let mut out: Vec<char> = Vec::new();
    extend_str(&mut out, "# Rust Site Branch Contract\n\n- services: `");
    push_dec(&mut out, c.services as u64);
    extend_str(&mut out, "`\n- total_branches: `");
    push_dec(&mut out, c.total_branches as u64);
    extend_str(&mut out, "`\n\n| Branch ID | Service | Handler | Kind | Predicate |\n|---|---|---|---|---|\n");
    let ghost head = out@;
    let ghost v = branch_views(c.branches@);
    let mut i: usize = 0;
    while i < c.branches.len()
        invariant
            i <= c.branches.len(),
            v == branch_views(c.branches@),
            out@ == head + spec_contract_rows_md(v.take(i as int)),
        decreases c.branches.len() - i,
    {
        assert(v.take(i + 1).drop_last() =~= v.take(i as int));
        push_contract_row(&mut out, &c.branches[i]);
        i = i + 1;
    }
    assert(v.take(c.branches.len() as int) =~= v);
    string_of(&out)
}

} // verus!
