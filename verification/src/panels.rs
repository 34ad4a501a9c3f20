//! The text of the terminal frontend's side panels: the pack and the
//! ground under the player, the log's lines and the tone a log message is
//! shown in.
use vstd::prelude::*;

use crate::events::{format_event, spec_format_event, GameEvent};
use crate::screens::{spec_status_name, status_name, SessionStatus};
use crate::text::{
    chars_of, contains_str, extend_str, lemma_lex_asymmetric, lemma_lex_transitive, lex_lt, lowercase, push_dec, spec_contains, spec_dec, spec_lex_lt, spec_lowercase,
    string_of,
};

verus! {

broadcast use vstd::seq_lib::group_to_multiset_ensures;

// ---------------------------------------------------------------------------
// Log tones
// ---------------------------------------------------------------------------

/// The colour class of a log message.
#[derive(Debug, Clone, Copy, PartialEq, Eq, Structural)]
pub enum MessageTone {
    Danger,
    Warning,
    Success,
    Plain,
}

pub open spec fn spec_has_any(m: Seq<char>, words: Seq<Seq<char>>) -> bool {
    exists|i: int| 0 <= i < words.len() && spec_contains(m, #[trigger] words[i])
}

pub open spec fn spec_danger_words() -> Seq<Seq<char>> {
    seq!["died"@, "defeated"@, "killed"@, "damage"@, "hit you"@]
}

pub open spec fn spec_warning_words() -> Seq<Seq<char>> {
    seq!["warning"@, "caution"@, "careful"@]
}

pub open spec fn spec_success_words() -> Seq<Seq<char>> {
    seq!["victory"@, "gained"@, "found"@, "success"@, "healed"@, "picked"@]
}

/// Danger words first, then warnings, then successes; the match is on the
/// text as it stands, case included.
pub open spec fn spec_message_tone(m: Seq<char>) -> MessageTone {
    if spec_has_any(m, spec_danger_words()) {
        MessageTone::Danger
    } else if spec_has_any(m, spec_warning_words()) {
        MessageTone::Warning
    } else if spec_has_any(m, spec_success_words()) {
        MessageTone::Success
    } else {
        MessageTone::Plain
    }
}

fn has_any(m: &Vec<char>, words: &Vec<&str>, Ghost(ws): Ghost<Seq<Seq<char>>>) -> (r: bool)
    requires
        words@.len() == ws.len(),
        forall|i: int| 0 <= i < ws.len() ==> words@[i]@ == ws[i],
    ensures
        r == spec_has_any(m@, ws),
{
    let mut i: usize = 0;
    while i < words.len()
        invariant
            i <= words.len(),
            words@.len() == ws.len(),
            forall|k: int| 0 <= k < ws.len() ==> words@[k]@ == ws[k],
            forall|k: int| 0 <= k < i ==> !spec_contains(m@, #[trigger] ws[k]),
        decreases words.len() - i,
    {
        if contains_str(m, words[i]) {
            assert(spec_contains(m@, ws[i as int]));
            return true;
        }
        i = i + 1;
    }
    false
}

pub fn message_tone(msg: &str) -> (r: MessageTone)
    ensures
        r == spec_message_tone(msg@),
{
    let m = chars_of(msg);
    let danger = vec!["died", "defeated", "killed", "damage", "hit you"];
    let warning = vec!["warning", "caution", "careful"];
    let success = vec!["victory", "gained", "found", "success", "healed", "picked"];
    if has_any(&m, &danger, Ghost(spec_danger_words())) {
        MessageTone::Danger
    } else if has_any(&m, &warning, Ghost(spec_warning_words())) {
        MessageTone::Warning
    } else if has_any(&m, &success, Ghost(spec_success_words())) {
        MessageTone::Success
    } else {
        MessageTone::Plain
    }
}

// ---------------------------------------------------------------------------
// The pack
// ---------------------------------------------------------------------------

/// `Pack: <count>/<capacity>  Burden: <burden>`.
pub fn pack_line(count: u64, capacity: u64, burden: u64) -> (r: String)
    ensures
        r@ == "Pack: "@ + spec_dec(count as nat) + "/"@ + spec_dec(capacity as nat) + "  Burden: "@ + spec_dec(
            burden as nat,
        ),
{
    let mut v = chars_of("Pack: ");
    push_dec(&mut v, count);
    extend_str(&mut v, "/");
    push_dec(&mut v, capacity);
    extend_str(&mut v, "  Burden: ");
    push_dec(&mut v, burden);
    string_of(&v)
}

/// The line of the pack's item in slot `index` (counted from 0):
/// `<index+1>: <name> [<family> | <effect>]`, the family in lower case and
/// `no-usef` for an item without an effect.
pub open spec fn spec_item_line(index: nat, name: Seq<char>, family: Seq<char>, usef: Seq<char>) -> Seq<char> {
    spec_dec(index + 1) + ": "@ + name + " ["@ + spec_lowercase(family) + " | "@ + (if usef.len() == 0 {
        "no-usef"@
    } else {
        usef
    }) + "]"@
}

pub fn item_line(index: u64, name: &str, family: &str, usef: &str) -> (r: String)
    requires
        index < u64::MAX,
    ensures
        r@ == spec_item_line(index as nat, name@, family@, usef@),
{
    let mut v: Vec<char> = Vec::new();
    push_dec(&mut v, index + 1);
    extend_str(&mut v, ": ");
    extend_str(&mut v, name);
    extend_str(&mut v, " [");
    let fam = lowercase(&chars_of(family));
    crate::text::extend(&mut v, &fam);
    extend_str(&mut v, " | ");
    let u = chars_of(usef);
    if u.len() == 0 {
        extend_str(&mut v, "no-usef");
    } else {
        crate::text::extend(&mut v, &u);
    }
    extend_str(&mut v, "]");
    string_of(&v)
}

// ---------------------------------------------------------------------------
// The ground
// ---------------------------------------------------------------------------

pub open spec fn texts(v: Seq<String>) -> Seq<Seq<char>> {
    Seq::new(v.len(), |i: int| v[i]@)
}

/// Names in ascending order, equal names side by side.
pub open spec fn spec_sorted(s: Seq<Seq<char>>) -> bool {
    forall|a: int, b: int| 0 <= a < b < s.len() ==> !spec_lex_lt(#[trigger] s[b], #[trigger] s[a])
}

proof fn lemma_insert_sorted(s: Seq<Seq<char>>, p: int, x: Seq<char>)
    requires
        spec_sorted(s),
        0 <= p <= s.len(),
        forall|a: int| 0 <= a < p ==> !spec_lex_lt(x, #[trigger] s[a]),
        p < s.len() ==> spec_lex_lt(x, s[p]),
    ensures
        spec_sorted(s.insert(p, x)),
{
    let t = s.insert(p, x);
    assert forall|a: int, b: int| 0 <= a < b < t.len() implies !spec_lex_lt(#[trigger] t[b], #[trigger] t[a]) by {
        if b == p {
            assert(t[a] == s[a]);
        } else if a == p {
            assert(t[b] == s[b - 1]);
            if b - 1 > p {
                assert(!spec_lex_lt(s[b - 1], s[p]));
                if spec_lex_lt(s[b - 1], x) {
                    lemma_lex_transitive(s[b - 1], x, s[p]);
                }
            } else {
                lemma_lex_asymmetric(x, s[p]);
            }
        } else {
            let sa = if a < p { a } else { a - 1 };
            let sb = if b < p { b } else { b - 1 };
            assert(t[a] == s[sa] && t[b] == s[sb]);
            assert(sa < sb);
        }
    }
}

/// The names of the items on the player's square, sorted: the order the
/// panel lists them in, whatever order they lie in.
pub fn sorted_names(names: &Vec<String>) -> (r: Vec<String>)
    ensures
        spec_sorted(texts(r@)),
        texts(r@).to_multiset() == texts(names@).to_multiset(),
{
    let mut out: Vec<String> = Vec::new();
    let mut i: usize = 0;
    while i < names.len()
        invariant
            i <= names.len(),
            spec_sorted(texts(out@)),
            texts(out@).to_multiset() == texts(names@).take(i as int).to_multiset(),
        decreases names.len() - i,
    {
        let x = chars_of(names[i].as_str());
        let mut p: usize = 0;
        while p < out.len() && !lex_lt(&x, &chars_of(out[p].as_str()))
            invariant
                p <= out.len(),
                x@ == names@[i as int]@,
                forall|a: int| 0 <= a < p ==> !spec_lex_lt(x@, #[trigger] texts(out@)[a]),
            decreases out.len() - p,
        {
            p = p + 1;
        }
        let ghost before = texts(out@);
        proof {
            lemma_insert_sorted(before, p as int, x@);
        }
        out.insert(p, names[i].clone());
        assert(texts(out@) =~= before.insert(p as int, x@));
        assert(texts(names@).take(i + 1) =~= texts(names@).take(i as int).push(x@));
        i = i + 1;
    }
    assert(texts(names@).take(names.len() as int) =~= texts(names@));
    out
}


// ---------------------------------------------------------------------------
// The log
// ---------------------------------------------------------------------------

/// The last `n` items of `s`, in their order.
pub open spec fn spec_last_n<T>(s: Seq<T>, n: nat) -> Seq<T> {
    if s.len() > n {
        s.subrange(s.len() - n, s.len() as int)
    } else {
        s
    }
}

/// What the last step reported: its events and the session's status after
/// it.
#[derive(Debug, Clone)]
pub struct StepOutcome {
    pub events: Vec<GameEvent>,
    pub status: SessionStatus,
}

/// The log panel: the timeline lines where there are any; else the log
/// lines of the last step's last eight events, and the session's status
/// once it is over; else `(no messages)`.
pub open spec fn spec_log_panel_lines(timeline: Seq<Seq<char>>, outcome: Option<StepOutcome>) -> Seq<Seq<char>> {
    let lines = if timeline.len() > 0 {
        timeline
    } else {
        match outcome {
            Some(o) => spec_last_n(o.events@, 8).map_values(|e: GameEvent| spec_format_event(e)) + if o.status
                != SessionStatus::InProgress {
                seq!["session status: "@ + spec_status_name(o.status)]
            } else {
                Seq::empty()
            },
            None => Seq::empty(),
        }
    };
    if lines.len() == 0 {
        seq!["(no messages)"@]
    } else {
        lines
    }
}

pub fn log_panel_lines(timeline: &Vec<String>, outcome: &Option<StepOutcome>) -> (r: Vec<String>)
    ensures
        texts(r@) == spec_log_panel_lines(texts(timeline@), *outcome),
{
    let mut out: Vec<String> = Vec::new();
    if timeline.len() > 0 {
        let mut i: usize = 0;
        while i < timeline.len()
            invariant
                i <= timeline.len(),
                texts(out@) == texts(timeline@).take(i as int),
            decreases timeline.len() - i,
        {
            let ghost before = texts(out@);
            out.push(timeline[i].clone());
            assert(texts(out@) =~= before.push(timeline@[i as int]@));
            assert(texts(out@) =~= texts(timeline@).take(i + 1));
            i = i + 1;
        }
        assert(texts(timeline@).take(timeline.len() as int) =~= texts(timeline@));
        return out;
    }
    match outcome {
        Some(o) => {
            let n = o.events.len();
            let start: usize = if n > 8 { n - 8 } else { 0 };
            let ghost tail = spec_last_n(o.events@, 8);
            assert(tail =~= o.events@.subrange(start as int, n as int));
            let mut i: usize = start;
            while i < n
                invariant
                    start <= i <= n,
                    n == o.events.len(),
                    tail == o.events@.subrange(start as int, n as int),
                    texts(out@) == tail.take(i - start).map_values(|e: GameEvent| spec_format_event(e)),
                decreases n - i,
            {
                let line = format_event(&o.events[i]);
                let ghost before = texts(out@);
                out.push(line);
                assert(texts(out@) =~= before.push(spec_format_event(o.events@[i as int])));
                assert(tail.take(i + 1 - start) =~= tail.take(i - start).push(o.events@[i as int]));
                assert(texts(out@) =~= tail.take(i + 1 - start).map_values(|e: GameEvent| spec_format_event(e)));
                i = i + 1;
            }
            assert(tail.take(n - start) =~= tail);
            if o.status != SessionStatus::InProgress {
                let mut l = chars_of("session status: ");
                extend_str(&mut l, status_name(o.status));
                let ghost before = texts(out@);
                out.push(string_of(&l));
                assert(texts(out@) =~= before.push(l@));
            }
        },
        None => {},
    }
    if out.len() == 0 {
        out.push(string_of(&chars_of("(no messages)")));
    }
    out
}


/// The log panel always shows at least one line.
pub proof fn law_log_panel_never_empty(timeline: Seq<Seq<char>>, outcome: Option<StepOutcome>)
    ensures
        spec_log_panel_lines(timeline, outcome).len() >= 1,
{
}

} // verus!
