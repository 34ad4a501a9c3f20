//! Reading the game's item prompt: which key picks an item by name.
//!
//! The prompt lists its choices as comma-separated entries `k) label`.
use vstd::prelude::*;

use crate::text::{
    contains, index_of_char, lemma_index_of_char, lowercase, spec_contains, spec_index_of_char,
    spec_lowercase, spec_split, spec_to_ascii_lowercase, spec_trim, split_char, to_ascii_lowercase,
    trim,
};

verus! {

broadcast use crate::views::group_view_lemmas;

/// Scans the entries in order. An entry without `)` is skipped; one whose
/// `)` comes first ends the scan with no key; otherwise the character before
/// the `)` is the key and the trimmed text after it the label, and the
/// first entry whose label contains the name (both compared in ASCII lower
/// case) gives its key, lower-cased.
pub open spec fn spec_choice_scan(entries: Seq<Seq<char>>, name: Seq<char>) -> Option<char>
    decreases entries.len(),
{
    if entries.len() == 0 {
        None
    } else {
        let t = spec_trim(entries[0]);
        let idx = spec_index_of_char(t, ')');
        if idx >= t.len() {
            spec_choice_scan(entries.drop_first(), name)
        } else if idx == 0 {
            None
        } else {
            let label = spec_lowercase(spec_trim(t.skip(idx as int + 1)));
            if spec_contains(label, spec_lowercase(name)) {
                Some(spec_to_ascii_lowercase(t[idx - 1]))
            } else {
                spec_choice_scan(entries.drop_first(), name)
            }
        }
    }
}

/// The key that picks the item called `name` in an item prompt's note.
pub open spec fn spec_choice_for_item_name(note: Seq<char>, name: Seq<char>) -> Option<char> {
    spec_choice_scan(spec_split(note, ','), name)
}

pub fn parse_choice_for_item_name(note: &str, name: &str) -> (r: Option<char>)
    ensures
        r == spec_choice_for_item_name(note@, name@),
{
    let note_chars = crate::text::chars_of(note);
    let lowered_name = lowercase(&crate::text::chars_of(name));
    let entries = split_char(&note_chars, ',');
    let ghost all = entries.deep_view();
    let mut i: usize = 0;
    assert(all.skip(0) =~= all);
    while i < entries.len()
        invariant
            i <= entries.len(),
            all == entries.deep_view(),
            all.len() == entries.len(),
            lowered_name@ == spec_lowercase(name@),
            spec_choice_for_item_name(note@, name@) == spec_choice_scan(all.skip(i as int), name@),
        decreases entries.len() - i,
    {
        let ghost rest = all.skip(i as int);
        assert(rest[0] == entries[i as int]@);
        assert(rest.drop_first() =~= all.skip(i + 1));
        let t = trim(&entries[i]);
        let idx = index_of_char(&t, ')');
        proof {
            lemma_index_of_char(t@, ')');
        }
        if idx < t.len() {
            if idx == 0 {
                return None;
            }
            let after = crate::text::copy_range(&t, idx + 1, t.len());
            assert(after@ =~= t@.skip(idx + 1));
            let label = lowercase(&trim(&after));
            if contains(&label, &lowered_name) {
                return Some(to_ascii_lowercase(t[idx - 1]));
            }
        }
        i = i + 1;
    }
    None
}

} // verus!
