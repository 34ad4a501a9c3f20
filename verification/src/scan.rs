//! Line scanners that turn the legacy help files, C headers and Rust sources
//! into mechanic entries.  Each scanner takes the file's lines and the path
//! under which it was read; reading the file is left to the caller.
use vstd::prelude::*;

use crate::mechanics::{
    CoverageKind, MechanicTier,
    c_identifier_chars, classify_define_name, classify_function_name, define_trigger,
    function_outcomes, function_preconditions, function_side_effects, function_state_delta,
    function_trigger, spec_classify_define_name, spec_classify_function_name,
    spec_define_trigger, spec_function_outcomes, spec_function_preconditions,
    spec_function_side_effects, spec_function_state_delta, spec_function_trigger,
    spec_is_c_identifier, classify_command_token, entry_views, help_token_chars, normalize_id_chars,
    spec_classify_command_token, spec_is_help_token, spec_normalize_id_token, EntryView,
    MechanicEntry,
};
use crate::text::{
    chars_of, clone_chars, contains_char, extend, extend_str, first_word, lemma_index_of_char,
    push_dec, spec_dec, spec_first_word, spec_split, spec_split_scan, spec_starts_with, spec_trim,
    split_char, starts_with_str, string_of, trim, before_char, ends_with_str, join, last_word,
    spec_before_char, spec_ends_with, spec_join, spec_last_word, spec_strip_prefix_all,
    spec_words, split_whitespace, strip_prefix_all, before_seq, chars_eq_str, contains,
    copy_range, count_char, is_ascii_uppercase, lemma_count_char_le_len, spec_before_seq,
    spec_contains, spec_count_char, spec_is_ascii_uppercase, spec_is_whitespace,
    spec_trim_end, spec_trim_end_char, spec_trim_start, spec_trim_start_char,
    starts_with, trim_end_char, trim_start_char,
};

verus! {

broadcast use crate::views::group_view_lemmas;

/// The optional view of an optional entry.
pub open spec fn opt_entry_view(o: Option<MechanicEntry>) -> Option<EntryView> {
    match o {
        Some(e) => Some(e@),
        None => None,
    }
}

/// `"{path}:{line}"`, where `line` counts from one.
pub open spec fn spec_anchor(path: Seq<char>, idx: int) -> Seq<char> {
    path + ":"@ + spec_dec((idx + 1) as nat)
}

fn anchor(path: &Vec<char>, idx: usize) -> (r: Vec<char>)
    requires
        idx < usize::MAX,
    ensures
        r@ == spec_anchor(path@, idx as int),
{
    let mut out = clone_chars(path);
    extend_str(&mut out, ":");
    push_dec(&mut out, (idx + 1) as u64);
    out
}

/// `prefix + body`, as a `String`.
fn prefixed(prefix: &str, body: &Vec<char>) -> (r: String)
    ensures
        r@ == prefix@ + body@,
{
    let mut out = chars_of(prefix);
    extend(&mut out, body);
    string_of(&out)
}

fn owned(s: &str) -> (r: String)
    ensures
        r@ == s@,
{
    let v = chars_of(s);
    string_of(&v)
}

// ---------------------------------------------------------------------------
// Help files
// ---------------------------------------------------------------------------

/// Whether a trimmed help line is a heading, a rule or blank.
pub open spec fn spec_help_skipped(t: Seq<char>) -> bool {
    ||| t.len() == 0
    ||| spec_starts_with(t, "_"@)
    ||| spec_starts_with(t, "key"@)
    ||| spec_starts_with(t, "DUNGEON"@)
    ||| spec_starts_with(t, "COUNTRYSIDE"@)
    ||| spec_starts_with(t, "vi keys"@)
    ||| spec_starts_with(t, "capitalized vi keys"@)
}

/// The entry that help line `idx` yields: a line `token: description`
/// whose token is a help token becomes a `legacy.command.` entry.
pub open spec fn spec_help_entry(line: Seq<char>, idx: int, path: Seq<char>, context: Seq<char>) -> Option<EntryView> {
    let t = spec_trim(line);
    if spec_help_skipped(t) || !t.contains(':') {
        None
    } else {
        let parts = spec_split(t, ':');
        let token = spec_trim(spec_first_word(parts[0]));
        if !spec_is_help_token(token) {
            None
        } else {
            let description = spec_trim(parts[1]);
            let class = spec_classify_command_token(token);
            Some(
                EntryView {
                    id: "legacy.command."@ + spec_normalize_id_token(token),
                    name: token + " - "@ + description,
                    tier: class.0,
                    domain: class.1,
                    legacy_anchor: spec_anchor(path, idx),
                    trigger: "input token `"@ + token + "` in "@ + context,
                    preconditions: "context="@ + context,
                    state_delta: "command-specific"@,
                    outcomes: description,
                    side_effects: "time/action progression by command"@,
                    coverage_kind: class.2,
                },
            )
        }
    }
}

/// The entries of the first `lines.len()` help lines, in line order.
pub open spec fn spec_help_entries(lines: Seq<Seq<char>>, path: Seq<char>, context: Seq<char>) -> Seq<EntryView>
    decreases lines.len(),
{
    if lines.len() == 0 {
        Seq::empty()
    } else {
        let prev = spec_help_entries(lines.drop_last(), path, context);
        match spec_help_entry(lines.last(), lines.len() - 1, path, context) {
            Some(e) => prev.push(e),
            None => prev,
        }
    }
}

fn help_skipped(t: &Vec<char>) -> (r: bool)
    ensures
        r == spec_help_skipped(t@),
{
    t.len() == 0 || starts_with_str(t, "_") || starts_with_str(t, "key") || starts_with_str(
        t,
        "DUNGEON",
    ) || starts_with_str(t, "COUNTRYSIDE") || starts_with_str(t, "vi keys") || starts_with_str(
        t,
        "capitalized vi keys",
    )
}

fn help_entry(line: &Vec<char>, idx: usize, path: &Vec<char>, context: &Vec<char>) -> (r: Option<
    MechanicEntry,
>)
    requires
        idx < usize::MAX,
    ensures
        opt_entry_view(r) == spec_help_entry(line@, idx as int, path@, context@),
{
    let t = trim(line);
    if help_skipped(&t) || !contains_char(&t, ':') {
        return None;
    }
    let parts = split_char(&t, ':');
    proof {
        let scan = spec_split_scan(t@, ':');
        lemma_index_of_char(t@, ':');
        lemma_split_has_two(t@, ':');
    }
    assert(parts.deep_view()[0] == parts[0]@);
    assert(parts.deep_view()[1] == parts[1]@);
    let token = trim(&first_word(&parts[0]));
    if !help_token_chars(&token) {
        return None;
    }
    let description = trim(&parts[1]);
    let class = classify_command_token(&token);
    let mut name = clone_chars(&token);
    extend_str(&mut name, " - ");
    extend(&mut name, &description);
    let mut trigger = chars_of("input token `");
    extend(&mut trigger, &token);
    extend_str(&mut trigger, "` in ");
    extend(&mut trigger, context);
    Some(
        MechanicEntry {
            id: prefixed("legacy.command.", &normalize_id_chars(&token)),
            name: string_of(&name),
            tier: class.0,
            domain: owned(class.1),
            legacy_anchor: string_of(&anchor(path, idx)),
            trigger: string_of(&trigger),
            preconditions: prefixed("context=", context),
            state_delta: owned("command-specific"),
            outcomes: string_of(&description),
            side_effects: owned("time/action progression by command"),
            coverage_kind: class.2,
        },
    )
}

/// A text holding `c` splits at `c` into at least two pieces.
pub proof fn lemma_split_has_two(s: Seq<char>, c: char)
    requires
        s.contains(c),
    ensures
        spec_split(s, c).len() >= 2,
    decreases s.len(),
{
    lemma_split_scan_grows(s, c);
    if s.last() == c {
    } else {
        assert(s.drop_last().contains(c)) by {
            let k = choose|k: int| 0 <= k < s.len() && s[k] == c;
            assert(s.drop_last()[k] == c);
        }
        lemma_split_has_two(s.drop_last(), c);
    }
}

/// Scanning never drops closed pieces.
pub proof fn lemma_split_scan_grows(s: Seq<char>, c: char)
    ensures
        s.len() > 0 ==> spec_split_scan(s.drop_last(), c).0.len() <= spec_split_scan(s, c).0.len(),
        s.len() > 0 && s.last() == c ==> spec_split_scan(s, c).0.len() >= 1,
{
}

/// Mechanic entries for the command tokens of a help file.
pub fn parse_help_commands(lines: &Vec<String>, path: &str, context: &str) -> (r: Vec<
    MechanicEntry,
>)
    requires
        lines.len() < usize::MAX,
    ensures
        entry_views(r@) == spec_help_entries(lines.deep_view(), path@, context@),
{
    let pathv = chars_of(path);
    let contextv = chars_of(context);
    let mut out: Vec<MechanicEntry> = Vec::new();
    let mut idx: usize = 0;
    while idx < lines.len()
        invariant
            idx <= lines.len() < usize::MAX,
            pathv@ == path@,
            contextv@ == context@,
            entry_views(out@) == spec_help_entries(lines.deep_view().take(idx as int), path@, context@),
        decreases lines.len() - idx,
    {
        let line = chars_of(lines[idx].as_str());
        let ghost before = out@;
        assert(lines.deep_view().take(idx + 1).drop_last() == lines.deep_view().take(idx as int));
        assert(lines.deep_view()[idx as int] == lines[idx as int]@);
        match help_entry(&line, idx, &pathv, &contextv) {
            Some(e) => {
                out.push(e);
                assert(entry_views(out@) =~= entry_views(before).push(e@));
            },
            None => {},
        }
        idx = idx + 1;
    }
    assert(lines.deep_view().take(lines.len() as int) == lines.deep_view());
    out
}

// ---------------------------------------------------------------------------
// C headers: prototypes and defines
// ---------------------------------------------------------------------------

/// The function entry for name `name` found at line `idx` of `path`;
/// `anchor` is the anchor text.
pub open spec fn spec_function_entry(prefix: Seq<char>, name: Seq<char>, anchor: Seq<char>) -> EntryView {
    let class = spec_classify_function_name(name);
    EntryView {
        id: prefix + name,
        name: name,
        tier: class.0,
        domain: class.1,
        legacy_anchor: anchor,
        trigger: spec_function_trigger(name),
        preconditions: spec_function_preconditions(name),
        state_delta: spec_function_state_delta(name),
        outcomes: spec_function_outcomes(name),
        side_effects: spec_function_side_effects(name),
        coverage_kind: class.2,
    }
}

fn function_entry(prefix: &str, name: &Vec<char>, anchor: Vec<char>) -> (r: MechanicEntry)
    ensures
        r@ == spec_function_entry(prefix@, name@, anchor@),
{
    let class = classify_function_name(name);
    MechanicEntry {
        id: prefixed(prefix, name),
        name: string_of(name),
        tier: class.0,
        domain: owned(class.1),
        legacy_anchor: string_of(&anchor),
        trigger: owned(function_trigger(name)),
        preconditions: owned(function_preconditions(name)),
        state_delta: owned(function_state_delta(name)),
        outcomes: owned(function_outcomes(name)),
        side_effects: owned(function_side_effects(name)),
        coverage_kind: class.2,
    }
}

/// The function name a prototype line declares, if it declares one.
pub open spec fn spec_prototype_name(line: Seq<char>) -> Option<Seq<char>> {
    let t = spec_trim(line);
    if t.len() == 0 || spec_starts_with(t, "/*"@) || spec_starts_with(t, "*"@) || spec_starts_with(
        t,
        "#"@,
    ) || !spec_ends_with(t, ");"@) || !t.contains('(') {
        None
    } else {
        let before_paren = spec_trim(spec_before_char(t, '('));
        let name = spec_last_word(before_paren);
        if before_paren.len() == 0 || !spec_is_c_identifier(name) {
            None
        } else {
            Some(name)
        }
    }
}

pub open spec fn spec_prototype_entries(lines: Seq<Seq<char>>, path: Seq<char>) -> Seq<EntryView>
    decreases lines.len(),
{
    if lines.len() == 0 {
        Seq::empty()
    } else {
        let prev = spec_prototype_entries(lines.drop_last(), path);
        match spec_prototype_name(lines.last()) {
            Some(name) => prev.push(
                spec_function_entry(
                    "legacy.function."@,
                    name,
                    spec_anchor(path, lines.len() - 1),
                ),
            ),
            None => prev,
        }
    }
}

fn prototype_name(line: &Vec<char>) -> (r: Option<Vec<char>>)
    ensures
        match r {
            Some(n) => spec_prototype_name(line@) == Some(n@),
            None => spec_prototype_name(line@) is None,
        },
{
    let t = trim(line);
    if t.len() == 0 || starts_with_str(&t, "/*") || starts_with_str(&t, "*") || starts_with_str(
        &t,
        "#",
    ) || !ends_with_str(&t, ");") || !contains_char(&t, '(') {
        return None;
    }
    let before_paren = trim(&before_char(&t, '('));
    if before_paren.len() == 0 {
        return None;
    }
    let name = last_word(&before_paren);
    if !c_identifier_chars(&name) {
        return None;
    }
    Some(name)
}

/// Mechanic entries for the function prototypes of a C header.
pub fn parse_c_prototypes(lines: &Vec<String>, path: &str) -> (r: Vec<MechanicEntry>)
    requires
        lines.len() < usize::MAX,
    ensures
        entry_views(r@) == spec_prototype_entries(lines.deep_view(), path@),
{
    let pathv = chars_of(path);
    let mut out: Vec<MechanicEntry> = Vec::new();
    let mut idx: usize = 0;
    while idx < lines.len()
        invariant
            idx <= lines.len() < usize::MAX,
            pathv@ == path@,
            entry_views(out@) == spec_prototype_entries(lines.deep_view().take(idx as int), path@),
        decreases lines.len() - idx,
    {
        let line = chars_of(lines[idx].as_str());
        let ghost before = out@;
        assert(lines.deep_view().take(idx + 1).drop_last() == lines.deep_view().take(idx as int));
        assert(lines.deep_view()[idx as int] == lines[idx as int]@);
        match prototype_name(&line) {
            Some(name) => {
                let e = function_entry("legacy.function.", &name, anchor(&pathv, idx));
                out.push(e);
                assert(entry_views(out@) =~= entry_views(before).push(e@));
            },
            None => {},
        }
        idx = idx + 1;
    }
    assert(lines.deep_view().take(lines.len() as int) == lines.deep_view());
    out
}

/// Whether a define name belongs to one of the tracked families.
pub open spec fn spec_tracked_define(name: Seq<char>) -> bool {
    ||| spec_starts_with(name, "S_"@)
    ||| spec_starts_with(name, "L_"@)
    ||| spec_starts_with(name, "M_"@)
    ||| spec_starts_with(name, "NUM"@)
    ||| spec_starts_with(name, "O_"@)
    ||| spec_starts_with(name, "MAX"@)
}

/// The entry a `#define NAME value` line yields.
pub open spec fn spec_define_entry(line: Seq<char>, idx: int, path: Seq<char>) -> Option<EntryView> {
    let t = spec_trim(line);
    let rest = spec_trim(spec_strip_prefix_all(t, "#define "@));
    let words = spec_words(rest);
    let name = spec_first_word(rest);
    if !spec_starts_with(t, "#define "@) || rest.len() == 0 {
        None
    } else if !spec_is_c_identifier(name) || name.contains('(') || !spec_tracked_define(name) {
        None
    } else {
        let value = spec_join(words.drop_first(), " "@);
        let class = spec_classify_define_name(name);
        Some(
            EntryView {
                id: "legacy.define."@ + name,
                name: name + "="@ + spec_trim(value),
                tier: class.0,
                domain: class.1,
                legacy_anchor: spec_anchor(path, idx),
                trigger: spec_define_trigger(name),
                preconditions: "constant lookup"@,
                state_delta: "none"@,
                outcomes: "symbolic contract"@,
                side_effects: "controls behavior branches"@,
                coverage_kind: class.2,
            },
        )
    }
}

pub open spec fn spec_define_entries(lines: Seq<Seq<char>>, path: Seq<char>) -> Seq<EntryView>
    decreases lines.len(),
{
    if lines.len() == 0 {
        Seq::empty()
    } else {
        let prev = spec_define_entries(lines.drop_last(), path);
        match spec_define_entry(lines.last(), lines.len() - 1, path) {
            Some(e) => prev.push(e),
            None => prev,
        }
    }
}

fn tracked_define(name: &Vec<char>) -> (r: bool)
    ensures
        r == spec_tracked_define(name@),
{
    starts_with_str(name, "S_") || starts_with_str(name, "L_") || starts_with_str(name, "M_")
        || starts_with_str(name, "NUM") || starts_with_str(name, "O_") || starts_with_str(
        name,
        "MAX",
    )
}

fn define_entry(line: &Vec<char>, idx: usize, path: &Vec<char>) -> (r: Option<MechanicEntry>)
    requires
        idx < usize::MAX,
    ensures
        opt_entry_view(r) == spec_define_entry(line@, idx as int, path@),
{
    let t = trim(line);
    if !starts_with_str(&t, "#define ") {
        return None;
    }
    let rest = trim(&strip_prefix_all(&t, &chars_of("#define ")));
    if rest.len() == 0 {
        return None;
    }
    let words = split_whitespace(&rest);
    let name = first_word(&rest);
    if !c_identifier_chars(&name) || contains_char(&name, '(') || !tracked_define(&name) {
        return None;
    }
    assert(words.len() > 0) by {
        assert(spec_first_word(rest@).len() > 0);
    }
    let mut tail: Vec<Vec<char>> = Vec::new();
    let mut k: usize = 1;
    while k < words.len()
        invariant
            1 <= k <= words.len(),
            tail.deep_view() == words.deep_view().subrange(1, k as int),
        decreases words.len() - k,
    {
        let ghost before = tail.deep_view();
        assert(words.deep_view()[k as int] == words[k as int]@);
        let w = clone_chars(&words[k]);
        tail.push(w);
        assert(tail.deep_view() =~= before.push(w@));
        assert(tail.deep_view() =~= words.deep_view().subrange(1, k + 1));
        k = k + 1;
    }
    assert(words.deep_view().subrange(1, words.len() as int) =~= words.deep_view().drop_first());
    let value = join(&tail, &chars_of(" "));
    let class = classify_define_name(&name);
    let mut full = clone_chars(&name);
    extend_str(&mut full, "=");
    extend(&mut full, &trim(&value));
    Some(
        MechanicEntry {
            id: prefixed("legacy.define.", &name),
            name: string_of(&full),
            tier: class.0,
            domain: owned(class.1),
            legacy_anchor: string_of(&anchor(path, idx)),
            trigger: owned(define_trigger(&name)),
            preconditions: owned("constant lookup"),
            state_delta: owned("none"),
            outcomes: owned("symbolic contract"),
            side_effects: owned("controls behavior branches"),
            coverage_kind: class.2,
        },
    )
}

/// Mechanic entries for the tracked `#define` constants of a C header.
pub fn parse_defines(lines: &Vec<String>, path: &str) -> (r: Vec<MechanicEntry>)
    requires
        lines.len() < usize::MAX,
    ensures
        entry_views(r@) == spec_define_entries(lines.deep_view(), path@),
{
    let pathv = chars_of(path);
    let mut out: Vec<MechanicEntry> = Vec::new();
    let mut idx: usize = 0;
    while idx < lines.len()
        invariant
            idx <= lines.len() < usize::MAX,
            pathv@ == path@,
            entry_views(out@) == spec_define_entries(lines.deep_view().take(idx as int), path@),
        decreases lines.len() - idx,
    {
        let line = chars_of(lines[idx].as_str());
        let ghost before = out@;
        assert(lines.deep_view().take(idx + 1).drop_last() == lines.deep_view().take(idx as int));
        assert(lines.deep_view()[idx as int] == lines[idx as int]@);
        match define_entry(&line, idx, &pathv) {
            Some(e) => {
                out.push(e);
                assert(entry_views(out@) =~= entry_views(before).push(e@));
            },
            None => {},
        }
        idx = idx + 1;
    }
    assert(lines.deep_view().take(lines.len() as int) == lines.deep_view());
    out
}

// ---------------------------------------------------------------------------
// Rust sources: functions and enum variants
// ---------------------------------------------------------------------------

/// The function a line declares: the text between `fn ` (or `pub fn `)
/// and the first `(`, trimmed.
pub open spec fn spec_rust_fn_name(line: Seq<char>) -> Option<Seq<char>> {
    if spec_starts_with(line, "fn "@) {
        Some(spec_trim(spec_before_char(line.skip("fn "@.len() as int), '(')))
    } else if spec_starts_with(line, "pub fn "@) {
        Some(spec_trim(spec_before_char(line.skip("pub fn "@.len() as int), '(')))
    } else {
        None
    }
}

pub fn rust_fn_name(line: &Vec<char>) -> (r: Option<Vec<char>>)
    ensures
        match r {
            Some(n) => spec_rust_fn_name(line@) == Some(n@),
            None => spec_rust_fn_name(line@) is None,
        },
{
    let p1 = chars_of("fn ");
    if starts_with(line, &p1) {
        let rest = copy_range(line, p1.len(), line.len());
        return Some(trim(&before_char(&rest, '(')));
    }
    let p2 = chars_of("pub fn ");
    if starts_with(line, &p2) {
        let rest = copy_range(line, p2.len(), line.len());
        return Some(trim(&before_char(&rest, '(')));
    }
    None
}

/// The enum variant a line declares: a line ending in `,` (and not an
/// `enum` header) whose text before `(`, without trailing commas, is a C
/// identifier starting with an upper-case letter.
pub open spec fn spec_rust_enum_variant(line: Seq<char>) -> Option<Seq<char>> {
    let t = spec_trim(line);
    let v = spec_trim(spec_before_char(spec_trim_end_char(t, ','), '('));
    if spec_starts_with(t, "enum "@) || spec_starts_with(t, "pub enum "@) || !spec_ends_with(
        t,
        ","@,
    ) {
        None
    } else if !spec_is_c_identifier(v) || !spec_is_ascii_uppercase(v[0]) {
        None
    } else {
        Some(v)
    }
}

pub fn rust_enum_variant(line: &Vec<char>) -> (r: Option<Vec<char>>)
    ensures
        match r {
            Some(n) => spec_rust_enum_variant(line@) == Some(n@),
            None => spec_rust_enum_variant(line@) is None,
        },
{
    let t = trim(line);
    if starts_with_str(&t, "enum ") || starts_with_str(&t, "pub enum ") || !ends_with_str(&t, ",") {
        return None;
    }
    let v = trim(&before_char(&trim_end_char(&t, ','), '('));
    if !c_identifier_chars(&v) {
        return None;
    }
    if is_ascii_uppercase(v[0]) {
        Some(v)
    } else {
        None
    }
}

/// `"{path}:{line} ({label})"`.
pub open spec fn spec_labelled_anchor(path: Seq<char>, idx: int, label: Seq<char>) -> Seq<char> {
    spec_anchor(path, idx) + " ("@ + label + ")"@
}

/// The entry for an enum variant of an interaction state machine.
pub open spec fn spec_variant_entry(v: Seq<char>, anchor: Seq<char>) -> EntryView {
    EntryView {
        id: "rust.enum.variant."@ + v,
        name: v,
        tier: MechanicTier::Tertiary,
        domain: "interaction_state"@,
        legacy_anchor: anchor,
        trigger: "state transition"@,
        preconditions: "modal interaction active"@,
        state_delta: "state machine branch"@,
        outcomes: "input route change"@,
        side_effects: "frontend and timing behavior"@,
        coverage_kind: CoverageKind::Runtime,
    }
}

/// The entries of one Rust line: its function, then its enum variant.
pub open spec fn spec_symbol_line_entries(line: Seq<char>, idx: int, path: Seq<char>, label: Seq<char>) -> Seq<EntryView> {
    let t = spec_trim(line);
    let anchor = spec_labelled_anchor(path, idx, label);
    let fns = match spec_rust_fn_name(t) {
        Some(n) => seq![spec_function_entry("rust.function."@, n, anchor)],
        None => Seq::empty(),
    };
    let vars = match spec_rust_enum_variant(t) {
        Some(v) => seq![spec_variant_entry(v, anchor)],
        None => Seq::empty(),
    };
    fns + vars
}

pub open spec fn spec_symbol_entries(lines: Seq<Seq<char>>, path: Seq<char>, label: Seq<char>) -> Seq<EntryView>
    decreases lines.len(),
{
    if lines.len() == 0 {
        Seq::empty()
    } else {
        spec_symbol_entries(lines.drop_last(), path, label) + spec_symbol_line_entries(
            lines.last(),
            lines.len() - 1,
            path,
            label,
        )
    }
}

fn labelled_anchor(path: &Vec<char>, idx: usize, label: &Vec<char>) -> (r: Vec<char>)
    requires
        idx < usize::MAX,
    ensures
        r@ == spec_labelled_anchor(path@, idx as int, label@),
{
    let mut out = anchor(path, idx);
    extend_str(&mut out, " (");
    extend(&mut out, label);
    extend_str(&mut out, ")");
    out
}

/// Mechanic entries for the functions and state-machine variants of a Rust
/// source file; `source_label` names the source in each anchor.
pub fn parse_rust_symbols(lines: &Vec<String>, path: &str, source_label: &str) -> (r: Vec<
    MechanicEntry,
>)
    requires
        lines.len() < usize::MAX,
    ensures
        entry_views(r@) == spec_symbol_entries(lines.deep_view(), path@, source_label@),
{
    let pathv = chars_of(path);
    let labelv = chars_of(source_label);
    let mut out: Vec<MechanicEntry> = Vec::new();
    let mut idx: usize = 0;
    while idx < lines.len()
        invariant
            idx <= lines.len() < usize::MAX,
            pathv@ == path@,
            labelv@ == source_label@,
            entry_views(out@) == spec_symbol_entries(
                lines.deep_view().take(idx as int),
                path@,
                source_label@,
            ),
        decreases lines.len() - idx,
    {
        let line = chars_of(lines[idx].as_str());
        let t = trim(&line);
        let ghost before = out@;
        assert(lines.deep_view().take(idx + 1).drop_last() == lines.deep_view().take(idx as int));
        assert(lines.deep_view()[idx as int] == lines[idx as int]@);
        match rust_fn_name(&t) {
            Some(name) => {
                let e = function_entry("rust.function.", &name, labelled_anchor(&pathv, idx, &labelv));
                out.push(e);
            },
            None => {},
        }
        let ghost mid = out@;
        match rust_enum_variant(&t) {
            Some(v) => {
                let e = MechanicEntry {
                    id: prefixed("rust.enum.variant.", &v),
                    name: string_of(&v),
                    tier: MechanicTier::Tertiary,
                    domain: owned("interaction_state"),
                    legacy_anchor: string_of(&labelled_anchor(&pathv, idx, &labelv)),
                    trigger: owned("state transition"),
                    preconditions: owned("modal interaction active"),
                    state_delta: owned("state machine branch"),
                    outcomes: owned("input route change"),
                    side_effects: owned("frontend and timing behavior"),
                    coverage_kind: CoverageKind::Runtime,
                };
                out.push(e);
            },
            None => {},
        }
        assert(entry_views(out@) =~= entry_views(before) + spec_symbol_line_entries(
            line@,
            idx as int,
            path@,
            source_label@,
        ));
        idx = idx + 1;
    }
    assert(lines.deep_view().take(lines.len() as int) == lines.deep_view());
    out
}

// ---------------------------------------------------------------------------
// Rust sources: legacy command tokens
// ---------------------------------------------------------------------------

/// Net number of opened braces on a line.
pub open spec fn spec_brace_delta(line: Seq<char>) -> int {
    spec_count_char(line, '{') - spec_count_char(line, '}')
}

pub fn brace_delta(line: &Vec<char>) -> (r: i32)
    requires
        line.len() <= i32::MAX,
    ensures
        r == spec_brace_delta(line@),
        -(line.len() as int) <= r <= line.len(),
{
    proof {
        lemma_count_char_le_len(line@, '{');
        lemma_count_char_le_len(line@, '}');
    }
    let open = count_char(line, '{');
    let close = count_char(line, '}');
    (open as i32) - (close as i32)
}

/// The line that opens the legacy-token dispatch `match`.
pub open spec fn spec_dispatch_marker() -> Seq<char> {
    "let (note, fully_modeled) = match trimmed"@
}

/// A match-arm piece as a token: trimmed, without surrounding quotes.
pub open spec fn spec_arm_token(piece: Seq<char>) -> Seq<char> {
    spec_trim_end_char(spec_trim_start_char(spec_trim(piece), '"'), '"')
}

/// Whether an arm token names a legacy command.
pub open spec fn spec_arm_token_kept(tok: Seq<char>) -> bool {
    tok.len() > 0 && tok != "_"@ && (spec_is_help_token(tok) || spec_starts_with(tok, "<"@))
}

pub open spec fn spec_command_token_entry(tok: Seq<char>, anchor: Seq<char>) -> EntryView {
    let class = spec_classify_command_token(tok);
    EntryView {
        id: "rust.command."@ + spec_normalize_id_token(tok),
        name: "legacy token "@ + tok,
        tier: class.0,
        domain: class.1,
        legacy_anchor: anchor,
        trigger: "Command::Legacy token `"@ + tok + "`"@,
        preconditions: "in-game command dispatch"@,
        state_delta: "command-specific"@,
        outcomes: "legacy command branch"@,
        side_effects: "turn/log/outcome changes"@,
        coverage_kind: class.2,
    }
}

/// The entries of the `|`-separated pieces of one arm pattern.
pub open spec fn spec_arm_entries(pieces: Seq<Seq<char>>, anchor: Seq<char>) -> Seq<EntryView>
    decreases pieces.len(),
{
    if pieces.len() == 0 {
        Seq::empty()
    } else {
        let prev = spec_arm_entries(pieces.drop_last(), anchor);
        let tok = spec_arm_token(pieces.last());
        if spec_arm_token_kept(tok) {
            prev.push(spec_command_token_entry(tok, anchor))
        } else {
            prev
        }
    }
}

/// The entries of one line inside the dispatch `match`.
pub open spec fn spec_arm_line_entries(t: Seq<char>, idx: int, path: Seq<char>) -> Seq<EntryView> {
    if spec_contains(t, "=>"@) {
        let lhs = spec_trim(spec_before_seq(t, "=>"@));
        spec_arm_entries(spec_split(lhs, '|'), spec_anchor(path, idx))
    } else {
        Seq::empty()
    }
}

/// Scanner state after a number of lines: inside the dispatch `match`,
/// the brace depth, and the entries so far.
pub open spec fn spec_command_scan(lines: Seq<Seq<char>>, path: Seq<char>) -> (bool, int, Seq<EntryView>)
    decreases lines.len(),
{
    if lines.len() == 0 {
        (false, 0, Seq::empty())
    } else {
        let (in_match, depth, entries) = spec_command_scan(lines.drop_last(), path);
        let t = spec_trim(lines.last());
        let idx = lines.len() - 1;
        if !in_match && spec_contains(t, spec_dispatch_marker()) {
            let d = spec_brace_delta(t);
            (d > 0, d, entries)
        } else if !in_match {
            (in_match, depth, entries)
        } else {
            let entries2 = entries + spec_arm_line_entries(t, idx, path);
            let d = depth + spec_brace_delta(t);
            if d <= 0 {
                (false, 0, entries2)
            } else {
                (true, d, entries2)
            }
        }
    }
}

/// Total number of characters of the lines.
pub open spec fn spec_total_len(lines: Seq<Seq<char>>) -> int
    decreases lines.len(),
{
    if lines.len() == 0 {
        0
    } else {
        spec_total_len(lines.drop_last()) + lines.last().len()
    }
}

pub proof fn lemma_trim_shorter(s: Seq<char>)
    ensures
        spec_trim(s).len() <= s.len(),
{
    lemma_trim_start_shorter(s);
    lemma_trim_end_shorter(spec_trim_start(s));
}

pub proof fn lemma_trim_start_shorter(s: Seq<char>)
    ensures
        spec_trim_start(s).len() <= s.len(),
    decreases s.len(),
{
    if s.len() > 0 && spec_is_whitespace(s[0]) {
        lemma_trim_start_shorter(s.drop_first());
    }
}

pub proof fn lemma_trim_end_shorter(s: Seq<char>)
    ensures
        spec_trim_end(s).len() <= s.len(),
    decreases s.len(),
{
    if s.len() > 0 && spec_is_whitespace(s.last()) {
        lemma_trim_end_shorter(s.drop_last());
    }
}

fn arm_entries(lhs: &Vec<char>, anchor: &Vec<char>, out: &mut Vec<MechanicEntry>)
    ensures
        entry_views(final(out)@) == entry_views(old(out)@) + spec_arm_entries(
            spec_split(lhs@, '|'),
            anchor@,
        ),
{
    let pieces = split_char(lhs, '|');
    let ghost start = entry_views(out@);
    let mut k: usize = 0;
    while k < pieces.len()
        invariant
            k <= pieces.len(),
            pieces.deep_view() == spec_split(lhs@, '|'),
            entry_views(out@) == start + spec_arm_entries(pieces.deep_view().take(k as int), anchor@),
        decreases pieces.len() - k,
    {
        assert(pieces.deep_view().take(k + 1).drop_last() == pieces.deep_view().take(k as int));
        assert(pieces.deep_view()[k as int] == pieces[k as int]@);
        let tok = trim_end_char(&trim_start_char(&trim(&pieces[k]), '"'), '"');
        let ghost before = out@;
        if tok.len() > 0 && !chars_eq_str(&tok, "_") && (help_token_chars(&tok) || starts_with_str(
            &tok,
            "<",
        )) {
            let class = classify_command_token(&tok);
            let mut name = chars_of("legacy token ");
            extend(&mut name, &tok);
            let mut trigger = chars_of("Command::Legacy token `");
            extend(&mut trigger, &tok);
            extend_str(&mut trigger, "`");
            let e = MechanicEntry {
                id: prefixed("rust.command.", &normalize_id_chars(&tok)),
                name: string_of(&name),
                tier: class.0,
                domain: owned(class.1),
                legacy_anchor: string_of(anchor),
                trigger: string_of(&trigger),
                preconditions: owned("in-game command dispatch"),
                state_delta: owned("command-specific"),
                outcomes: owned("legacy command branch"),
                side_effects: owned("turn/log/outcome changes"),
                coverage_kind: class.2,
            };
            out.push(e);
            assert(entry_views(out@) =~= entry_views(before).push(e@));
        }
        k = k + 1;
    }
    assert(pieces.deep_view().take(pieces.len() as int) == pieces.deep_view());
}

/// Mechanic entries for the legacy command tokens that the Rust dispatch
/// `match` handles: every token of every arm pattern inside the `match`
/// that starts at the marker line, up to the line that closes it.
pub fn parse_rust_command_tokens(lines: &Vec<String>, path: &str) -> (r: Vec<MechanicEntry>)
    requires
        lines.len() < usize::MAX,
        spec_total_len(lines.deep_view()) <= i32::MAX,
    ensures
        entry_views(r@) == spec_command_scan(lines.deep_view(), path@).2,
{
    let pathv = chars_of(path);
    let marker = chars_of("let (note, fully_modeled) = match trimmed");
    let arrow = chars_of("=>");
    let mut out: Vec<MechanicEntry> = Vec::new();
    let mut in_match = false;
    let mut brace_depth: i32 = 0;
    let mut idx: usize = 0;
    proof {
        lemma_total_len_mono(lines.deep_view(), 0);
    }
    while idx < lines.len()
        invariant
            idx <= lines.len() < usize::MAX,
            pathv@ == path@,
            marker@ == spec_dispatch_marker(),
            arrow@ == "=>"@,
            spec_total_len(lines.deep_view()) <= i32::MAX,
            spec_total_len(lines.deep_view().take(idx as int)) <= spec_total_len(lines.deep_view()),
            -spec_total_len(lines.deep_view().take(idx as int)) <= brace_depth <= spec_total_len(
                lines.deep_view().take(idx as int),
            ),
            (in_match, brace_depth as int, entry_views(out@)) == spec_command_scan(
                lines.deep_view().take(idx as int),
                path@,
            ),
        decreases lines.len() - idx,
    {
        let line = chars_of(lines[idx].as_str());
        let ghost before = out@;
        let ghost prefix = lines.deep_view().take(idx + 1);
        assert(prefix.drop_last() == lines.deep_view().take(idx as int));
        assert(lines.deep_view()[idx as int] == lines[idx as int]@);
        assert(prefix.last() == line@);
        proof {
            lemma_total_len_prefix(lines.deep_view(), idx as int);
        }
        let trimmed = trim(&line);
        proof {
            lemma_trim_shorter(line@);
        }
        if !in_match && contains(&trimmed, &marker) {
            in_match = true;
            brace_depth = brace_delta(&trimmed);
            if brace_depth <= 0 {
                in_match = false;
            }
        } else if in_match {
            if contains(&trimmed, &arrow) {
                let lhs = trim(&before_seq(&trimmed, &arrow));
                let anchor_v = anchor(&pathv, idx);
                arm_entries(&lhs, &anchor_v, &mut out);
            }
            let d = brace_delta(&trimmed);
            brace_depth = brace_depth + d;
            if brace_depth <= 0 {
                in_match = false;
                brace_depth = 0;
            }
        }
        idx = idx + 1;
    }
    assert(lines.deep_view().take(lines.len() as int) == lines.deep_view());
    out
}

/// The total length of a prefix grows by the next line.
pub proof fn lemma_total_len_prefix(lines: Seq<Seq<char>>, i: int)
    requires
        0 <= i < lines.len(),
    ensures
        spec_total_len(lines.take(i + 1)) == spec_total_len(lines.take(i)) + lines[i].len(),
        spec_total_len(lines.take(i + 1)) <= spec_total_len(lines),
{
    assert(lines.take(i + 1).drop_last() == lines.take(i));
    lemma_total_len_mono(lines, i + 1);
}

pub proof fn lemma_total_len_mono(lines: Seq<Seq<char>>, i: int)
    requires
        0 <= i <= lines.len(),
    ensures
        spec_total_len(lines.take(i)) <= spec_total_len(lines),
    decreases lines.len() - i,
{
    if i < lines.len() {
        lemma_total_len_mono(lines, i + 1);
        assert(lines.take(i + 1).drop_last() == lines.take(i));
    } else {
        assert(lines.take(i) == lines);
    }
}

} // verus!
