//! Character and string primitives used by the report builders and the
//! source scanners.  Text is handled as `Vec<char>` inside the library and
//! described by `Seq<char>` in contracts; `String` values are produced only at
//! the edges.
use vstd::prelude::*;

verus! {

broadcast use crate::views::group_view_lemmas;

// ---------------------------------------------------------------------------
// Character classes
// ---------------------------------------------------------------------------

/// The Unicode `White_Space` property, which `char::is_whitespace` tests.
pub open spec fn spec_is_whitespace(c: char) -> bool {
    ||| ('\u{9}' <= c && c <= '\u{D}')
    ||| c == ' '
    ||| c == '\u{85}'
    ||| c == '\u{A0}'
    ||| c == '\u{1680}'
    ||| ('\u{2000}' <= c && c <= '\u{200A}')
    ||| c == '\u{2028}'
    ||| c == '\u{2029}'
    ||| c == '\u{202F}'
    ||| c == '\u{205F}'
    ||| c == '\u{3000}'
}

pub fn is_whitespace(c: char) -> (r: bool)
    ensures
        r == spec_is_whitespace(c),
{
    ('\u{9}' <= c && c <= '\u{D}') || c == ' ' || c == '\u{85}' || c == '\u{A0}' || c
        == '\u{1680}' || ('\u{2000}' <= c && c <= '\u{200A}') || c == '\u{2028}' || c
        == '\u{2029}' || c == '\u{202F}' || c == '\u{205F}' || c == '\u{3000}'
}

pub open spec fn spec_is_ascii_alphabetic(c: char) -> bool {
    ('a' <= c && c <= 'z') || ('A' <= c && c <= 'Z')
}

pub fn is_ascii_alphabetic(c: char) -> (r: bool)
    ensures
        r == spec_is_ascii_alphabetic(c),
{
    ('a' <= c && c <= 'z') || ('A' <= c && c <= 'Z')
}

pub open spec fn spec_is_ascii_digit(c: char) -> bool {
    '0' <= c && c <= '9'
}

pub open spec fn spec_is_ascii_uppercase(c: char) -> bool {
    'A' <= c && c <= 'Z'
}

pub fn is_ascii_uppercase(c: char) -> (r: bool)
    ensures
        r == spec_is_ascii_uppercase(c),
{
    'A' <= c && c <= 'Z'
}

pub open spec fn spec_is_ascii_alphanumeric(c: char) -> bool {
    spec_is_ascii_alphabetic(c) || spec_is_ascii_digit(c)
}

pub fn is_ascii_alphanumeric(c: char) -> (r: bool)
    ensures
        r == spec_is_ascii_alphanumeric(c),
{
    ('a' <= c && c <= 'z') || ('A' <= c && c <= 'Z') || ('0' <= c && c <= '9')
}

/// `char::is_ascii_graphic`: U+0021 '!' ..= U+007E '~'.
pub open spec fn spec_is_ascii_graphic(c: char) -> bool {
    '!' <= c && c <= '~'
}

pub fn is_ascii_graphic(c: char) -> (r: bool)
    ensures
        r == spec_is_ascii_graphic(c),
{
    '!' <= c && c <= '~'
}

/// `char::is_ascii`.
pub open spec fn spec_is_ascii(c: char) -> bool {
    c <= '\u{7F}'
}

pub fn is_ascii(c: char) -> (r: bool)
    ensures
        r == spec_is_ascii(c),
{
    c <= '\u{7F}'
}

// ---------------------------------------------------------------------------
// Conversions between `&str`, `String` and `Vec<char>`
// ---------------------------------------------------------------------------

/// Collects the characters of a string slice.
pub fn chars_of(s: &str) -> (v: Vec<char>)
    ensures
        v@ == s@,
{
    broadcast use vstd::string::group_string_axioms;

    let mut v: Vec<char> = Vec::new();
    for c in it: s.chars()
        invariant
            v@ == it.seq().take(it.index() as int),
    {
        v.push(c);
    }
    v
}

/// `String::push`.
#[verifier::external_body]
fn push_char(s: &mut String, c: char)
    ensures
        final(s)@ == old(s)@.push(c),
{
    s.push(c);
}

/// Builds a `String` holding the given characters.
pub fn string_of(v: &Vec<char>) -> (s: String)
    ensures
        s@ == v@,
{
    let mut s = String::new();
    let mut i: usize = 0;
    while i < v.len()
        invariant
            i <= v.len(),
            s@ == v@.take(i as int),
        decreases v.len() - i,
    {
        push_char(&mut s, v[i]);
        assert(v@.take(i + 1) == v@.take(i as int).push(v@[i as int]));
        i = i + 1;
    }
    assert(v@.take(v.len() as int) == v@);
    s
}

/// Copies `v[from..to]`.
pub fn copy_range(v: &Vec<char>, from: usize, to: usize) -> (r: Vec<char>)
    requires
        from <= to <= v.len(),
    ensures
        r@ == v@.subrange(from as int, to as int),
{
    let mut r: Vec<char> = Vec::new();
    let mut i: usize = from;
    while i < to
        invariant
            from <= i <= to <= v.len(),
            r@ == v@.subrange(from as int, i as int),
        decreases to - i,
    {
        r.push(v[i]);
        assert(v@.subrange(from as int, i + 1) == v@.subrange(from as int, i as int).push(
            v@[i as int],
        ));
        i = i + 1;
    }
    r
}

/// A copy of `v`.
pub fn clone_chars(v: &Vec<char>) -> (r: Vec<char>)
    ensures
        r@ == v@,
{
    let r = copy_range(v, 0, v.len());
    assert(v@.subrange(0, v.len() as int) == v@);
    r
}

/// Appends all characters of `other` to `out`.
pub fn extend(out: &mut Vec<char>, other: &Vec<char>)
    ensures
        final(out)@ == old(out)@ + other@,
{
    let ghost start = out@;
    let mut i: usize = 0;
    while i < other.len()
        invariant
            i <= other.len(),
            out@ == start + other@.take(i as int),
        decreases other.len() - i,
    {
        out.push(other[i]);
        assert(other@.take(i + 1) == other@.take(i as int).push(other@[i as int]));
        i = i + 1;
    }
    assert(other@.take(other.len() as int) == other@);
}

/// Appends the characters of a string slice to `out`.
pub fn extend_str(out: &mut Vec<char>, s: &str)
    ensures
        final(out)@ == old(out)@ + s@,
{
    let v = chars_of(s);
    extend(out, &v);
}

// ---------------------------------------------------------------------------
// Trimming
// ---------------------------------------------------------------------------

/// `str::trim_start`: drops the leading white space.
pub open spec fn spec_trim_start(s: Seq<char>) -> Seq<char>
    decreases s.len(),
{
    if s.len() > 0 && spec_is_whitespace(s[0]) {
        spec_trim_start(s.drop_first())
    } else {
        s
    }
}

/// `str::trim_end`: drops the trailing white space.
pub open spec fn spec_trim_end(s: Seq<char>) -> Seq<char>
    decreases s.len(),
{
    if s.len() > 0 && spec_is_whitespace(s.last()) {
        spec_trim_end(s.drop_last())
    } else {
        s
    }
}

/// `str::trim`.
pub open spec fn spec_trim(s: Seq<char>) -> Seq<char> {
    spec_trim_end(spec_trim_start(s))
}

pub fn trim_start(v: &Vec<char>) -> (r: Vec<char>)
    ensures
        r@ == spec_trim_start(v@),
{
    let mut i: usize = 0;
    assert(v@.subrange(0, v.len() as int) == v@);
    while i < v.len() && is_whitespace(v[i])
        invariant
            i <= v.len(),
            spec_trim_start(v@) == spec_trim_start(v@.subrange(i as int, v.len() as int)),
        decreases v.len() - i,
    {
        assert(v@.subrange(i as int, v.len() as int).drop_first() == v@.subrange(
            i + 1,
            v.len() as int,
        ));
        i = i + 1;
    }
    assert(i < v.len() ==> v@.subrange(i as int, v.len() as int)[0] == v@[i as int]);
    copy_range(v, i, v.len())
}

pub fn trim_end(v: &Vec<char>) -> (r: Vec<char>)
    ensures
        r@ == spec_trim_end(v@),
{
    let mut j: usize = v.len();
    assert(v@.subrange(0, v.len() as int) == v@);
    while j > 0 && is_whitespace(v[j - 1])
        invariant
            j <= v.len(),
            spec_trim_end(v@) == spec_trim_end(v@.subrange(0, j as int)),
        decreases j,
    {
        assert(v@.subrange(0, j as int).drop_last() == v@.subrange(0, j - 1));
        j = j - 1;
    }
    assert(j > 0 ==> v@.subrange(0, j as int).last() == v@[j - 1]);
    copy_range(v, 0, j)
}

pub fn trim(v: &Vec<char>) -> (r: Vec<char>)
    ensures
        r@ == spec_trim(v@),
{
    let a = trim_start(v);
    trim_end(&a)
}

// ---------------------------------------------------------------------------
// Prefixes, suffixes and searching
// ---------------------------------------------------------------------------

pub open spec fn spec_starts_with(s: Seq<char>, p: Seq<char>) -> bool {
    p.len() <= s.len() && s.subrange(0, p.len() as int) == p
}

pub open spec fn spec_ends_with(s: Seq<char>, p: Seq<char>) -> bool {
    p.len() <= s.len() && s.subrange(s.len() - p.len(), s.len() as int) == p
}

/// Index of the first occurrence of `p` in `s`, as `str::find`.
pub open spec fn spec_find(s: Seq<char>, p: Seq<char>) -> Option<nat>
    decreases s.len(),
{
    if spec_starts_with(s, p) {
        Some(0)
    } else if s.len() == 0 {
        None
    } else {
        match spec_find(s.drop_first(), p) {
            Some(i) => Some(i + 1),
            None => None,
        }
    }
}

/// `str::contains` with a string pattern.
pub open spec fn spec_contains(s: Seq<char>, p: Seq<char>) -> bool {
    spec_find(s, p) is Some
}

/// Index of the first `c` in `s`, or `s.len()` when there is none.
pub open spec fn spec_index_of_char(s: Seq<char>, c: char) -> nat
    decreases s.len(),
{
    if s.len() == 0 {
        0
    } else if s[0] == c {
        0
    } else {
        1 + spec_index_of_char(s.drop_first(), c)
    }
}

/// The text before the first `c` (all of `s` when there is none).
pub open spec fn spec_before_char(s: Seq<char>, c: char) -> Seq<char> {
    s.take(spec_index_of_char(s, c) as int)
}

/// The text after the first `c` (empty when there is none).
pub open spec fn spec_after_char(s: Seq<char>, c: char) -> Seq<char> {
    if spec_index_of_char(s, c) < s.len() {
        s.skip(spec_index_of_char(s, c) as int + 1)
    } else {
        Seq::empty()
    }
}

pub fn starts_with(s: &Vec<char>, p: &Vec<char>) -> (r: bool)
    ensures
        r == spec_starts_with(s@, p@),
{
    if p.len() > s.len() {
        return false;
    }
    let mut i: usize = 0;
    while i < p.len()
        invariant
            p.len() <= s.len(),
            i <= p.len(),
            forall|k: int| 0 <= k < i ==> s@[k] == p@[k],
        decreases p.len() - i,
    {
        if s[i] != p[i] {
            assert(s@.subrange(0, p.len() as int)[i as int] != p@[i as int]);
            return false;
        }
        i = i + 1;
    }
    assert(s@.subrange(0, p.len() as int) =~= p@);
    true
}

pub fn starts_with_str(s: &Vec<char>, p: &str) -> (r: bool)
    ensures
        r == spec_starts_with(s@, p@),
{
    let pv = chars_of(p);
    starts_with(s, &pv)
}

/// Whether `p` occurs in `s` at position `at`.
pub fn occurs_at(s: &Vec<char>, p: &Vec<char>, at: usize) -> (r: bool)
    requires
        at <= s.len(),
    ensures
        r == spec_starts_with(s@.skip(at as int), p@),
{
    if p.len() > s.len() - at {
        return false;
    }
    let mut i: usize = 0;
    while i < p.len()
        invariant
            at <= s.len(),
            p.len() <= s.len() - at,
            i <= p.len(),
            forall|k: int| 0 <= k < i ==> s@[at + k] == p@[k],
        decreases p.len() - i,
    {
        if s[at + i] != p[i] {
            assert(s@.skip(at as int).subrange(0, p.len() as int)[i as int] != p@[i as int]);
            return false;
        }
        i = i + 1;
    }
    assert(s@.skip(at as int).subrange(0, p.len() as int) =~= p@);
    true
}

pub fn ends_with(s: &Vec<char>, p: &Vec<char>) -> (r: bool)
    ensures
        r == spec_ends_with(s@, p@),
{
    if p.len() > s.len() {
        return false;
    }
    let at = s.len() - p.len();
    let r = occurs_at(s, p, at);
    assert(s@.skip(at as int).subrange(0, p.len() as int) =~= s@.subrange(
        at as int,
        s.len() as int,
    ));
    r
}

pub fn ends_with_str(s: &Vec<char>, p: &str) -> (r: bool)
    ensures
        r == spec_ends_with(s@, p@),
{
    let pv = chars_of(p);
    ends_with(s, &pv)
}

/// `str::find` with a string pattern.
pub fn find(s: &Vec<char>, p: &Vec<char>) -> (r: Option<usize>)
    ensures
        r matches Some(i) ==> spec_find(s@, p@) == Some(i as nat),
        r is None ==> spec_find(s@, p@) is None,
{
    let mut i: usize = 0;
    assert(s@.skip(0) == s@);
    while i < s.len()
        invariant
            i <= s.len(),
            spec_find(s@, p@) == match spec_find(s@.skip(i as int), p@) {
                Some(k) => Some((k + i) as nat),
                None => None::<nat>,
            },
        decreases s.len() - i,
    {
        if occurs_at(s, p, i) {
            return Some(i);
        }
        assert(s@.skip(i as int).drop_first() == s@.skip(i + 1));
        i = i + 1;
    }
    if occurs_at(s, p, i) {
        return Some(i);
    }
    assert(s@.skip(i as int).len() == 0);
    None
}

pub fn contains(s: &Vec<char>, p: &Vec<char>) -> (r: bool)
    ensures
        r == spec_contains(s@, p@),
{
    find(s, p).is_some()
}

pub fn contains_str(s: &Vec<char>, p: &str) -> (r: bool)
    ensures
        r == spec_contains(s@, p@),
{
    let pv = chars_of(p);
    contains(s, &pv)
}

/// Index of the first `c`, or `s.len()` when `s` has none.
pub fn index_of_char(s: &Vec<char>, c: char) -> (r: usize)
    ensures
        r == spec_index_of_char(s@, c),
        r <= s.len(),
{
    let mut i: usize = 0;
    assert(s@.skip(0) == s@);
    while i < s.len() && s[i] != c
        invariant
            i <= s.len(),
            spec_index_of_char(s@, c) == i + spec_index_of_char(s@.skip(i as int), c),
        decreases s.len() - i,
    {
        assert(s@.skip(i as int).drop_first() == s@.skip(i + 1));
        i = i + 1;
    }
    i
}

/// `spec_index_of_char` finds `c` exactly when `s` holds it.
pub proof fn lemma_index_of_char(s: Seq<char>, c: char)
    ensures
        spec_index_of_char(s, c) <= s.len(),
        spec_index_of_char(s, c) < s.len() <==> s.contains(c),
        spec_index_of_char(s, c) < s.len() ==> s[spec_index_of_char(s, c) as int] == c,
        forall|k: int| 0 <= k < spec_index_of_char(s, c) ==> s[k] != c,
    decreases s.len(),
{
    if s.len() > 0 && s[0] != c {
        lemma_index_of_char(s.drop_first(), c);
        if s.contains(c) {
            let k = choose|k: int| 0 <= k < s.len() && s[k] == c;
            assert(s.drop_first()[k - 1] == c);
        }
        if s.drop_first().contains(c) {
            let k = choose|k: int| 0 <= k < s.drop_first().len() && s.drop_first()[k] == c;
            assert(s[k + 1] == c);
        }
        assert forall|k: int| 0 <= k < spec_index_of_char(s, c) implies s[k] != c by {
            if k > 0 {
                assert(s[k] == s.drop_first()[k - 1]);
            }
        }
    } else if s.len() > 0 {
        assert(s[0] == c);
    }
}

pub fn contains_char(s: &Vec<char>, c: char) -> (r: bool)
    ensures
        r == (spec_index_of_char(s@, c) < s@.len()),
        r == s@.contains(c),
{
    proof {
        lemma_index_of_char(s@, c);
    }
    index_of_char(s, c) < s.len()
}

/// Whether `s` is one character that occurs in `set`.
pub open spec fn spec_is_one_of(s: Seq<char>, set: Seq<char>) -> bool {
    s.len() == 1 && set.contains(s[0])
}

pub fn is_one_of(s: &Vec<char>, set: &str) -> (r: bool)
    ensures
        r == spec_is_one_of(s@, set@),
{
    if s.len() != 1 {
        return false;
    }
    let sv = chars_of(set);
    contains_char(&sv, s[0])
}

pub fn before_char(s: &Vec<char>, c: char) -> (r: Vec<char>)
    ensures
        r@ == spec_before_char(s@, c),
{
    let i = index_of_char(s, c);
    copy_range(s, 0, i)
}

pub fn after_char(s: &Vec<char>, c: char) -> (r: Vec<char>)
    ensures
        r@ == spec_after_char(s@, c),
{
    let i = index_of_char(s, c);
    if i < s.len() {
        copy_range(s, i + 1, s.len())
    } else {
        Vec::new()
    }
}

// ---------------------------------------------------------------------------
// Splitting and joining
// ---------------------------------------------------------------------------

/// Left-to-right scan of `str::split(sep)`: the pieces closed so far and the
/// piece under construction.
pub open spec fn spec_split_scan(s: Seq<char>, sep: char) -> (Seq<Seq<char>>, Seq<char>)
    decreases s.len(),
{
    if s.len() == 0 {
        (Seq::empty(), Seq::empty())
    } else {
        let (parts, cur) = spec_split_scan(s.drop_last(), sep);
        if s.last() == sep {
            (parts.push(cur), Seq::empty())
        } else {
            (parts, cur.push(s.last()))
        }
    }
}

/// `str::split` with a character separator; yields at least one piece.
pub open spec fn spec_split(s: Seq<char>, sep: char) -> Seq<Seq<char>> {
    spec_split_scan(s, sep).0.push(spec_split_scan(s, sep).1)
}

/// Left-to-right scan of `str::split_whitespace`.
pub open spec fn spec_words_scan(s: Seq<char>) -> (Seq<Seq<char>>, Seq<char>)
    decreases s.len(),
{
    if s.len() == 0 {
        (Seq::empty(), Seq::empty())
    } else {
        let (words, cur) = spec_words_scan(s.drop_last());
        if spec_is_whitespace(s.last()) {
            if cur.len() > 0 {
                (words.push(cur), Seq::empty())
            } else {
                (words, Seq::empty())
            }
        } else {
            (words, cur.push(s.last()))
        }
    }
}

/// `str::split_whitespace`: the maximal runs of non-white-space characters.
pub open spec fn spec_words(s: Seq<char>) -> Seq<Seq<char>> {
    let (words, cur) = spec_words_scan(s);
    if cur.len() > 0 {
        words.push(cur)
    } else {
        words
    }
}

/// A line that was ended by `\n` loses one trailing `\r`.
pub open spec fn spec_strip_cr(l: Seq<char>) -> Seq<char> {
    if l.len() > 0 && l.last() == '\r' {
        l.drop_last()
    } else {
        l
    }
}

/// `spec_strip_cr` applied to each line.
pub open spec fn spec_strip_cr_each(ls: Seq<Seq<char>>) -> Seq<Seq<char>>
    decreases ls.len(),
{
    if ls.len() == 0 {
        Seq::empty()
    } else {
        spec_strip_cr_each(ls.drop_last()).push(spec_strip_cr(ls.last()))
    }
}

/// `str::lines`: split at `\n`; a line ended by `\n` drops one trailing
/// `\r`; the text after the last `\n` is a line only when it is not empty.
pub open spec fn spec_lines(s: Seq<char>) -> Seq<Seq<char>> {
    let (parts, cur) = spec_split_scan(s, '\n');
    let ended = spec_strip_cr_each(parts);
    if cur.len() > 0 {
        ended.push(cur)
    } else {
        ended
    }
}

/// `[String]::join(sep)`.
pub open spec fn spec_join(parts: Seq<Seq<char>>, sep: Seq<char>) -> Seq<char>
    decreases parts.len(),
{
    if parts.len() == 0 {
        Seq::empty()
    } else if parts.len() == 1 {
        parts[0]
    } else {
        spec_join(parts.drop_last(), sep) + sep + parts.last()
    }
}

pub fn split_char(s: &Vec<char>, sep: char) -> (r: Vec<Vec<char>>)
    ensures
        r.deep_view() == spec_split(s@, sep),
{
    let mut parts: Vec<Vec<char>> = Vec::new();
    let mut cur: Vec<char> = Vec::new();
    let mut i: usize = 0;
    while i < s.len()
        invariant
            i <= s.len(),
            (parts.deep_view(), cur@) == spec_split_scan(s@.take(i as int), sep),
        decreases s.len() - i,
    {
        let c = s[i];
        assert(s@.take(i + 1).drop_last() == s@.take(i as int));
        if c == sep {
            let ghost old_parts = parts.deep_view();
            let done = cur;
            parts.push(done);
            assert(parts.deep_view() =~= old_parts.push(done@));
            cur = Vec::new();
        } else {
            cur.push(c);
        }
        i = i + 1;
    }
    assert(s@.take(s.len() as int) == s@);
    let ghost old_parts = parts.deep_view();
    let last = cur;
    parts.push(last);
    assert(parts.deep_view() =~= old_parts.push(last@));
    parts
}

pub fn split_whitespace(s: &Vec<char>) -> (r: Vec<Vec<char>>)
    ensures
        r.deep_view() == spec_words(s@),
{
    let mut words: Vec<Vec<char>> = Vec::new();
    let mut cur: Vec<char> = Vec::new();
    let mut i: usize = 0;
    while i < s.len()
        invariant
            i <= s.len(),
            (words.deep_view(), cur@) == spec_words_scan(s@.take(i as int)),
        decreases s.len() - i,
    {
        let c = s[i];
        assert(s@.take(i + 1).drop_last() == s@.take(i as int));
        if is_whitespace(c) {
            if cur.len() > 0 {
                let ghost old_words = words.deep_view();
                let done = cur;
                words.push(done);
                assert(words.deep_view() =~= old_words.push(done@));
                cur = Vec::new();
            } else {
                cur = Vec::new();
            }
        } else {
            cur.push(c);
        }
        i = i + 1;
    }
    assert(s@.take(s.len() as int) == s@);
    if cur.len() > 0 {
        let ghost old_words = words.deep_view();
        let last = cur;
        words.push(last);
        assert(words.deep_view() =~= old_words.push(last@));
    }
    words
}

fn strip_cr(l: Vec<char>) -> (r: Vec<char>)
    ensures
        r@ == spec_strip_cr(l@),
{
    let mut l = l;
    if l.len() > 0 && l[l.len() - 1] == '\r' {
        l.pop();
    }
    l
}

pub fn lines(s: &Vec<char>) -> (r: Vec<Vec<char>>)
    ensures
        r.deep_view() == spec_lines(s@),
{
    let pieces = split_char(s, '\n');
    let ghost scan = spec_split_scan(s@, '\n');
    assert(pieces.deep_view().len() == scan.0.len() + 1);
    let n = pieces.len() - 1;
    let mut out: Vec<Vec<char>> = Vec::new();
    let mut i: usize = 0;
    while i < n
        invariant
            n + 1 == pieces.len(),
            scan.0.len() == n,
            i <= n,
            pieces.deep_view() == scan.0.push(scan.1),
            out.deep_view() == spec_strip_cr_each(scan.0.take(i as int)),
        decreases n - i,
    {
        let ghost old_out = out.deep_view();
        assert(pieces.deep_view()[i as int] == pieces[i as int]@);
        assert(pieces.deep_view()[i as int] == scan.0[i as int]);
        let piece = strip_cr(clone_chars(&pieces[i]));
        out.push(piece);
        assert(out.deep_view() =~= old_out.push(spec_strip_cr(scan.0[i as int])));
        assert(scan.0.take(i + 1).drop_last() == scan.0.take(i as int));
        i = i + 1;
    }
    assert(scan.0.take(n as int) == scan.0);
    assert(pieces.deep_view()[n as int] == pieces[n as int]@);
    if pieces[n].len() > 0 {
        let ghost old_out = out.deep_view();
        let last = clone_chars(&pieces[n]);
        out.push(last);
        assert(out.deep_view() =~= old_out.push(last@));
    }
    out
}

/// Joins `parts` with `sep` between neighbours.
pub fn join(parts: &Vec<Vec<char>>, sep: &Vec<char>) -> (r: Vec<char>)
    ensures
        r@ == spec_join(parts.deep_view(), sep@),
{
    let mut out: Vec<char> = Vec::new();
    let mut i: usize = 0;
    while i < parts.len()
        invariant
            i <= parts.len(),
            out@ == spec_join(parts.deep_view().take(i as int), sep@),
        decreases parts.len() - i,
    {
        assert(parts.deep_view().take(i + 1).drop_last() == parts.deep_view().take(i as int));
        assert(parts.deep_view()[i as int] == parts[i as int]@);
        if i > 0 {
            extend(&mut out, sep);
        }
        extend(&mut out, &parts[i]);
        i = i + 1;
    }
    assert(parts.deep_view().take(parts.len() as int) == parts.deep_view());
    out
}

// ---------------------------------------------------------------------------
// Character replacement and case
// ---------------------------------------------------------------------------

/// `str::replace(c, rep)` for a character pattern.
pub open spec fn spec_replace_char(s: Seq<char>, c: char, rep: Seq<char>) -> Seq<char>
    decreases s.len(),
{
    if s.len() == 0 {
        Seq::empty()
    } else if s.last() == c {
        spec_replace_char(s.drop_last(), c, rep) + rep
    } else {
        spec_replace_char(s.drop_last(), c, rep).push(s.last())
    }
}

pub fn replace_char(s: &Vec<char>, c: char, rep: &Vec<char>) -> (r: Vec<char>)
    ensures
        r@ == spec_replace_char(s@, c, rep@),
{
    let mut out: Vec<char> = Vec::new();
    let mut i: usize = 0;
    while i < s.len()
        invariant
            i <= s.len(),
            out@ == spec_replace_char(s@.take(i as int), c, rep@),
        decreases s.len() - i,
    {
        assert(s@.take(i + 1).drop_last() == s@.take(i as int));
        if s[i] == c {
            extend(&mut out, rep);
        } else {
            out.push(s[i]);
        }
        i = i + 1;
    }
    assert(s@.take(s.len() as int) == s@);
    out
}

pub fn replace_char_str(s: &Vec<char>, c: char, rep: &str) -> (r: Vec<char>)
    ensures
        r@ == spec_replace_char(s@, c, rep@),
{
    let rv = chars_of(rep);
    replace_char(s, c, &rv)
}

/// `char::to_ascii_lowercase`.
pub open spec fn spec_to_ascii_lowercase(c: char) -> char {
    if spec_is_ascii_uppercase(c) {
        ((c as u32) + 32) as char
    } else {
        c
    }
}

pub fn to_ascii_lowercase(c: char) -> (r: char)
    ensures
        r == spec_to_ascii_lowercase(c),
{
    if 'A' <= c && c <= 'Z' {
        let u: u8 = (c as u8) + 32;
        u as char
    } else {
        c
    }
}

/// `str::to_ascii_lowercase`.
pub open spec fn spec_lowercase(s: Seq<char>) -> Seq<char> {
    s.map_values(|c: char| spec_to_ascii_lowercase(c))
}

pub fn lowercase(s: &Vec<char>) -> (r: Vec<char>)
    ensures
        r@ == spec_lowercase(s@),
{
    let mut out: Vec<char> = Vec::new();
    let mut i: usize = 0;
    while i < s.len()
        invariant
            i <= s.len(),
            out@.len() == i,
            forall|k: int| 0 <= k < i ==> out@[k] == spec_to_ascii_lowercase(#[trigger] s@[k]),
        decreases s.len() - i,
    {
        out.push(to_ascii_lowercase(s[i]));
        i = i + 1;
    }
    assert(out@ =~= spec_lowercase(s@));
    out
}

// ---------------------------------------------------------------------------
// Ordering and equality
// ---------------------------------------------------------------------------

/// Lexicographic order by code point.  `String`'s `Ord` compares UTF-8
/// bytes, which orders text the same way.
pub open spec fn spec_lex_lt(a: Seq<char>, b: Seq<char>) -> bool
    decreases a.len(),
{
    if a.len() == 0 {
        b.len() > 0
    } else if b.len() == 0 {
        false
    } else if a[0] != b[0] {
        a[0] < b[0]
    } else {
        spec_lex_lt(a.drop_first(), b.drop_first())
    }
}

pub proof fn lemma_lex_irreflexive(a: Seq<char>)
    ensures
        !spec_lex_lt(a, a),
    decreases a.len(),
{
    if a.len() > 0 {
        lemma_lex_irreflexive(a.drop_first());
    }
}

pub proof fn lemma_lex_asymmetric(a: Seq<char>, b: Seq<char>)
    ensures
        spec_lex_lt(a, b) ==> !spec_lex_lt(b, a),
    decreases a.len(),
{
    if a.len() > 0 && b.len() > 0 && a[0] == b[0] {
        lemma_lex_asymmetric(a.drop_first(), b.drop_first());
    }
}

pub proof fn lemma_lex_transitive(a: Seq<char>, b: Seq<char>, c: Seq<char>)
    requires
        spec_lex_lt(a, b),
        spec_lex_lt(b, c),
    ensures
        spec_lex_lt(a, c),
    decreases a.len(),
{
    if a.len() > 0 && b.len() > 0 && c.len() > 0 && a[0] == b[0] && b[0] == c[0] {
        lemma_lex_transitive(a.drop_first(), b.drop_first(), c.drop_first());
    }
}

pub proof fn lemma_lex_total(a: Seq<char>, b: Seq<char>)
    ensures
        a != b ==> spec_lex_lt(a, b) || spec_lex_lt(b, a),
    decreases a.len(),
{
    if a.len() > 0 && b.len() > 0 && a[0] == b[0] {
        lemma_lex_total(a.drop_first(), b.drop_first());
        if a.drop_first() == b.drop_first() {
            assert(a.len() == b.len());
            assert forall|i: int| 0 <= i < a.len() implies a[i] == b[i] by {
                if i > 0 {
                    assert(a[i] == a.drop_first()[i - 1]);
                    assert(b[i] == b.drop_first()[i - 1]);
                }
            }
            assert(a =~= b);
        }
    } else if a.len() == 0 && b.len() == 0 {
        assert(a =~= b);
    }
}

pub fn lex_lt(a: &Vec<char>, b: &Vec<char>) -> (r: bool)
    ensures
        r == spec_lex_lt(a@, b@),
{
    let mut i: usize = 0;
    assert(a@.skip(0) == a@ && b@.skip(0) == b@);
    while i < a.len() && i < b.len() && a[i] == b[i]
        invariant
            i <= a.len(),
            i <= b.len(),
            spec_lex_lt(a@, b@) == spec_lex_lt(a@.skip(i as int), b@.skip(i as int)),
        decreases a.len() - i,
    {
        assert(a@.skip(i as int).drop_first() == a@.skip(i + 1));
        assert(b@.skip(i as int).drop_first() == b@.skip(i + 1));
        i = i + 1;
    }
    if i == a.len() {
        i < b.len()
    } else if i == b.len() {
        false
    } else {
        assert(a@.skip(i as int)[0] == a@[i as int]);
        assert(b@.skip(i as int)[0] == b@[i as int]);
        a[i] < b[i]
    }
}

pub fn chars_eq(a: &Vec<char>, b: &Vec<char>) -> (r: bool)
    ensures
        r == (a@ == b@),
{
    if a.len() != b.len() {
        return false;
    }
    let mut i: usize = 0;
    while i < a.len()
        invariant
            a.len() == b.len(),
            i <= a.len(),
            forall|k: int| 0 <= k < i ==> a@[k] == b@[k],
        decreases a.len() - i,
    {
        if a[i] != b[i] {
            return false;
        }
        i = i + 1;
    }
    assert(a@ =~= b@);
    true
}

pub fn chars_eq_str(a: &Vec<char>, b: &str) -> (r: bool)
    ensures
        r == (a@ == b@),
{
    let bv = chars_of(b);
    chars_eq(a, &bv)
}

// ---------------------------------------------------------------------------
// Numbers as text
// ---------------------------------------------------------------------------

pub open spec fn spec_digit(d: nat) -> char {
    if d == 0 {
        '0'
    } else if d == 1 {
        '1'
    } else if d == 2 {
        '2'
    } else if d == 3 {
        '3'
    } else if d == 4 {
        '4'
    } else if d == 5 {
        '5'
    } else if d == 6 {
        '6'
    } else if d == 7 {
        '7'
    } else if d == 8 {
        '8'
    } else {
        '9'
    }
}

/// Lower-case hexadecimal digit.
pub open spec fn spec_hex_digit(d: nat) -> char {
    if d < 10 {
        spec_digit(d)
    } else if d == 10 {
        'a'
    } else if d == 11 {
        'b'
    } else if d == 12 {
        'c'
    } else if d == 13 {
        'd'
    } else if d == 14 {
        'e'
    } else {
        'f'
    }
}

/// Decimal text of `n`, as `format!("{}", n)`.
pub open spec fn spec_dec(n: nat) -> Seq<char>
    decreases n,
{
    if n < 10 {
        seq![spec_digit(n)]
    } else {
        spec_dec(n / 10).push(spec_digit(n % 10))
    }
}

/// The `k` lowest hexadecimal digits of `n`, most significant first.
pub open spec fn spec_hex_digits(n: nat, k: nat) -> Seq<char>
    decreases k,
{
    if k == 0 {
        Seq::empty()
    } else {
        spec_hex_digits(n / 16, (k - 1) as nat).push(spec_hex_digit(n % 16))
    }
}

fn hex_digit(d: u64) -> (c: char)
    requires
        d < 16,
    ensures
        c == spec_hex_digit(d as nat),
{
    if d < 10 {
        digit(d)
    } else if d == 10 {
        'a'
    } else if d == 11 {
        'b'
    } else if d == 12 {
        'c'
    } else if d == 13 {
        'd'
    } else if d == 14 {
        'e'
    } else {
        'f'
    }
}

fn digit(d: u64) -> (c: char)
    requires
        d < 10,
    ensures
        c == spec_digit(d as nat),
{
    if d == 0 {
        '0'
    } else if d == 1 {
        '1'
    } else if d == 2 {
        '2'
    } else if d == 3 {
        '3'
    } else if d == 4 {
        '4'
    } else if d == 5 {
        '5'
    } else if d == 6 {
        '6'
    } else if d == 7 {
        '7'
    } else if d == 8 {
        '8'
    } else {
        '9'
    }
}

/// Appends the decimal text of `n`.
pub fn push_dec(out: &mut Vec<char>, n: u64)
    ensures
        final(out)@ == old(out)@ + spec_dec(n as nat),
    decreases n,
{
    if n >= 10 {
        push_dec(out, n / 10);
    }
    out.push(digit(n % 10));
}

/// Appends the decimal text of a 128-bit `n`.
pub fn push_dec_wide(out: &mut Vec<char>, n: u128)
    ensures
        final(out)@ == old(out)@ + spec_dec(n as nat),
    decreases n,
{
    if n >= 10 {
        push_dec_wide(out, n / 10);
    }
    out.push(digit((n % 10) as u64));
}

/// Appends the `k` lowest hexadecimal digits of `n`.
pub fn push_hex_digits(out: &mut Vec<char>, n: u64, k: u64)
    ensures
        final(out)@ == old(out)@ + spec_hex_digits(n as nat, k as nat),
    decreases k,
{
    if k > 0 {
        push_hex_digits(out, n / 16, k - 1);
        out.push(hex_digit(n % 16));
    }
}

// ---------------------------------------------------------------------------
// Words, repeated affixes and counting
// ---------------------------------------------------------------------------

/// `split_whitespace().next().unwrap_or("")`.
pub open spec fn spec_first_word(s: Seq<char>) -> Seq<char> {
    if spec_words(s).len() > 0 {
        spec_words(s)[0]
    } else {
        Seq::empty()
    }
}

/// `split_whitespace().last().unwrap_or("")`.
pub open spec fn spec_last_word(s: Seq<char>) -> Seq<char> {
    if spec_words(s).len() > 0 {
        spec_words(s).last()
    } else {
        Seq::empty()
    }
}

pub fn first_word(s: &Vec<char>) -> (r: Vec<char>)
    ensures
        r@ == spec_first_word(s@),
{
    let words = split_whitespace(s);
    if words.len() > 0 {
        assert(words.deep_view()[0] == words[0]@);
        clone_chars(&words[0])
    } else {
        Vec::new()
    }
}

pub fn last_word(s: &Vec<char>) -> (r: Vec<char>)
    ensures
        r@ == spec_last_word(s@),
{
    let words = split_whitespace(s);
    if words.len() > 0 {
        let n = words.len() - 1;
        assert(words.deep_view()[n as int] == words[n as int]@);
        clone_chars(&words[n])
    } else {
        Vec::new()
    }
}

/// `str::trim_start_matches(p)` for a string pattern: every leading copy of
/// `p` is removed (nothing is removed when `p` is empty).
pub open spec fn spec_strip_prefix_all(s: Seq<char>, p: Seq<char>) -> Seq<char>
    decreases s.len(),
{
    if p.len() > 0 && spec_starts_with(s, p) {
        spec_strip_prefix_all(s.skip(p.len() as int), p)
    } else {
        s
    }
}

pub fn strip_prefix_all(s: &Vec<char>, p: &Vec<char>) -> (r: Vec<char>)
    ensures
        r@ == spec_strip_prefix_all(s@, p@),
{
    let mut i: usize = 0;
    assert(s@.skip(0) == s@);
    while p.len() > 0 && i <= s.len() && occurs_at(s, p, i)
        invariant
            i <= s.len(),
            spec_strip_prefix_all(s@, p@) == spec_strip_prefix_all(s@.skip(i as int), p@),
        decreases s.len() - i,
    {
        assert(s@.skip(i as int).skip(p.len() as int) == s@.skip(i + p.len()));
        i = i + p.len();
    }
    copy_range(s, i, s.len())
}

/// `str::trim_start_matches(c)` for a character.
pub open spec fn spec_trim_start_char(s: Seq<char>, c: char) -> Seq<char>
    decreases s.len(),
{
    if s.len() > 0 && s[0] == c {
        spec_trim_start_char(s.drop_first(), c)
    } else {
        s
    }
}

/// `str::trim_end_matches(c)` for a character.
pub open spec fn spec_trim_end_char(s: Seq<char>, c: char) -> Seq<char>
    decreases s.len(),
{
    if s.len() > 0 && s.last() == c {
        spec_trim_end_char(s.drop_last(), c)
    } else {
        s
    }
}

pub fn trim_start_char(v: &Vec<char>, c: char) -> (r: Vec<char>)
    ensures
        r@ == spec_trim_start_char(v@, c),
{
    let mut i: usize = 0;
    assert(v@.subrange(0, v.len() as int) == v@);
    while i < v.len() && v[i] == c
        invariant
            i <= v.len(),
            spec_trim_start_char(v@, c) == spec_trim_start_char(
                v@.subrange(i as int, v.len() as int),
                c,
            ),
        decreases v.len() - i,
    {
        assert(v@.subrange(i as int, v.len() as int).drop_first() == v@.subrange(
            i + 1,
            v.len() as int,
        ));
        i = i + 1;
    }
    assert(i < v.len() ==> v@.subrange(i as int, v.len() as int)[0] == v@[i as int]);
    copy_range(v, i, v.len())
}

pub fn trim_end_char(v: &Vec<char>, c: char) -> (r: Vec<char>)
    ensures
        r@ == spec_trim_end_char(v@, c),
{
    let mut j: usize = v.len();
    assert(v@.subrange(0, v.len() as int) == v@);
    while j > 0 && v[j - 1] == c
        invariant
            j <= v.len(),
            spec_trim_end_char(v@, c) == spec_trim_end_char(v@.subrange(0, j as int), c),
        decreases j,
    {
        assert(v@.subrange(0, j as int).drop_last() == v@.subrange(0, j - 1));
        j = j - 1;
    }
    assert(j > 0 ==> v@.subrange(0, j as int).last() == v@[j - 1]);
    copy_range(v, 0, j)
}

/// Number of occurrences of `c` in `s`.
pub open spec fn spec_count_char(s: Seq<char>, c: char) -> nat
    decreases s.len(),
{
    if s.len() == 0 {
        0
    } else {
        spec_count_char(s.drop_last(), c) + if s.last() == c {
            1nat
        } else {
            0nat
        }
    }
}

pub proof fn lemma_count_char_le_len(s: Seq<char>, c: char)
    ensures
        spec_count_char(s, c) <= s.len(),
    decreases s.len(),
{
    if s.len() > 0 {
        lemma_count_char_le_len(s.drop_last(), c);
    }
}

pub fn count_char(s: &Vec<char>, c: char) -> (r: usize)
    ensures
        r == spec_count_char(s@, c),
{
    let mut n: usize = 0;
    let mut i: usize = 0;
    while i < s.len()
        invariant
            i <= s.len(),
            n == spec_count_char(s@.take(i as int), c),
        decreases s.len() - i,
    {
        assert(s@.take(i + 1).drop_last() == s@.take(i as int));
        proof {
            lemma_count_char_le_len(s@.take(i as int), c);
        }
        if s[i] == c {
            n = n + 1;
        }
        i = i + 1;
    }
    assert(s@.take(s.len() as int) == s@);
    n
}

/// `s.split(p).next()` for a string pattern: the text before the first
/// occurrence of `p`, or all of `s`.
pub open spec fn spec_before_seq(s: Seq<char>, p: Seq<char>) -> Seq<char> {
    match spec_find(s, p) {
        Some(i) => s.take(i as int),
        None => s,
    }
}

/// The index `str::find` gives is one where the pattern occurs.
pub proof fn lemma_find_matches(s: Seq<char>, p: Seq<char>)
    ensures
        spec_find(s, p) matches Some(i) ==> i <= s.len() && spec_starts_with(s.skip(i as int), p),
    decreases s.len(),
{
    if spec_starts_with(s, p) {
        assert(s.skip(0) =~= s);
    } else if s.len() > 0 {
        lemma_find_matches(s.drop_first(), p);
        if let Some(j) = spec_find(s.drop_first(), p) {
            assert(s.drop_first().skip(j as int) =~= s.skip(j + 1 as int));
        }
    }
}

pub proof fn lemma_find_bound(s: Seq<char>, p: Seq<char>)
    ensures
        spec_find(s, p) matches Some(i) ==> i + p.len() <= s.len(),
    decreases s.len(),
{
    if !spec_starts_with(s, p) && s.len() > 0 {
        lemma_find_bound(s.drop_first(), p);
    }
}

pub fn before_seq(s: &Vec<char>, p: &Vec<char>) -> (r: Vec<char>)
    ensures
        r@ == spec_before_seq(s@, p@),
{
    proof {
        lemma_find_bound(s@, p@);
    }
    match find(s, p) {
        Some(i) => copy_range(s, 0, i),
        None => clone_chars(s),
    }
}

/// Decimal text of a signed integer.
pub open spec fn spec_int(n: int) -> Seq<char> {
    if n < 0 {
        "-"@ + spec_dec((-n) as nat)
    } else {
        spec_dec(n as nat)
    }
}

/// Appends the decimal text of a signed integer.
pub fn push_int(out: &mut Vec<char>, n: i64)
    requires
        n > i64::MIN,
    ensures
        final(out)@ == old(out)@ + spec_int(n as int),
{
    if n < 0 {
        extend_str(out, "-");
        push_dec(out, (-n) as u64);
    } else {
        push_dec(out, n as u64);
    }
}

} // verus!
