//! The top-level fields of a JSON report, as plain values, and the reads the
//! parity tools make of them: a flag, a count, a status.
use vstd::prelude::*;

use crate::text::{chars_eq_str, chars_of, ends_with_str, spec_ends_with};
use serde_json::Value;

verus! {

broadcast use crate::views::group_view_lemmas;

/// The value of one top-level field of a JSON report.
#[derive(Debug, Clone, PartialEq, Eq)]
pub enum FieldValue {
    Null,
    Bool(bool),
    /// A number that is a non-negative integer within `u64`.
    Unsigned(u64),
    /// Any other number.
    OtherNumber,
    Text(String),
    /// An array, each element as its own JSON text.
    Array(Vec<String>),
    /// An object, as its JSON text.
    Object(String),
}

/// The mathematical form of a field value.
pub enum FieldView {
    Null,
    Bool(bool),
    Unsigned(u64),
    OtherNumber,
    Text(Seq<char>),
    Array(Seq<Seq<char>>),
    Object(Seq<char>),
}

impl View for FieldValue {
    type V = FieldView;

    open spec fn view(&self) -> FieldView {
        match self {
            FieldValue::Null => FieldView::Null,
            FieldValue::Bool(b) => FieldView::Bool(*b),
            FieldValue::Unsigned(n) => FieldView::Unsigned(*n),
            FieldValue::OtherNumber => FieldView::OtherNumber,
            FieldValue::Text(s) => FieldView::Text(s@),
            FieldValue::Array(v) => FieldView::Array(v@.map_values(|e: String| e@)),
            FieldValue::Object(t) => FieldView::Object(t@),
        }
    }
}

/// The top-level fields of a JSON report, in the order the parser keeps
/// them (by key); a report that is not an object has none.
#[derive(Debug, Clone)]
pub struct JsonFields {
    pub entries: Vec<(String, FieldValue)>,
}

/// The fields as key and value views.
pub open spec fn fields_view(f: JsonFields) -> Seq<(Seq<char>, FieldView)> {
    f.entries@.map_values(|e: (String, FieldValue)| (e.0@, e.1@))
}

pub open spec fn opt_fields_view(r: Option<JsonFields>) -> Option<Seq<(Seq<char>, FieldView)>> {
    match r {
        Some(f) => Some(fields_view(f)),
        None => None,
    }
}

/// What `serde_json` makes of a JSON text, as its top-level fields.
pub uninterp spec fn json_fields_of(raw: Seq<char>) -> Option<Seq<(Seq<char>, FieldView)>>;

/// `serde_json::from_str::<Value>`: the top-level fields of the parsed
/// text, or `None` where it is not JSON. Nested arrays and objects are
/// handed back as their JSON texts, which `serde_json` writes. The result
/// is named, not stated: what the parser accepts and how it writes the
/// nested texts is left to it.
#[verifier::external_body]
pub(crate) fn parse_json_fields(raw: &str) -> (r: Option<JsonFields>)
    ensures
        opt_fields_view(r) == json_fields_of(raw@),
{
    let v: Value = serde_json::from_str(raw).ok()?;
    let mut entries = Vec::new();
    for (k, x) in v.as_object().into_iter().flatten() {
        let f = match x {
            Value::Null => FieldValue::Null,
            Value::Bool(b) => FieldValue::Bool(*b),
            Value::Number(n) => n.as_u64().map_or(FieldValue::OtherNumber, FieldValue::Unsigned),
            Value::String(s) => FieldValue::Text(s.clone()),
            Value::Array(a) => FieldValue::Array(a.iter().map(|e| e.to_string()).collect()),
            Value::Object(_) => FieldValue::Object(x.to_string()),
        };
        entries.push((k.clone(), f));
    }
    Some(JsonFields { entries })
}

/// The fields of a report given its text, `None` where there is no text or
/// it is not JSON.
pub open spec fn spec_report_of_text(raw: Option<String>) -> Option<Seq<(Seq<char>, FieldView)>> {
    match raw {
        Some(t) => json_fields_of(t@),
        None => None,
    }
}

pub fn report_of_text(raw: &Option<String>) -> (r: Option<JsonFields>)
    ensures
        opt_fields_view(r) == spec_report_of_text(*raw),
{
    match raw {
        Some(t) => parse_json_fields(t.as_str()),
        None => None,
    }
}

/// A copy of a field value.
pub fn clone_field(v: &FieldValue) -> (r: FieldValue)
    ensures
        r@ == v@,
{
    match v {
        FieldValue::Null => FieldValue::Null,
        FieldValue::Bool(b) => FieldValue::Bool(*b),
        FieldValue::Unsigned(n) => FieldValue::Unsigned(*n),
        FieldValue::OtherNumber => FieldValue::OtherNumber,
        FieldValue::Text(t) => FieldValue::Text(t.clone()),
        FieldValue::Array(els) => {
            let mut out: Vec<String> = Vec::new();
            let mut i: usize = 0;
            assert(out@.map_values(|e: String| e@) =~= els@.map_values(|e: String| e@).take(0));
            while i < els.len()
                invariant
                    i <= els.len(),
                    out.len() == i,
                    out@.map_values(|e: String| e@) == els@.map_values(|e: String| e@).take(i as int),
                decreases els.len() - i,
            {
                let c = els[i].clone();
                let ghost before = out@;
                out.push(c);
                assert(out@ == before.push(els@[i as int]));
                assert(out@.map_values(|e: String| e@) =~= els@.map_values(|e: String| e@).take(i + 1));
                i = i + 1;
            }
            assert(els@.map_values(|e: String| e@).take(els.len() as int) =~= els@.map_values(|e: String| e@));
            FieldValue::Array(out)
        },
        FieldValue::Object(t) => FieldValue::Object(t.clone()),
    }
}

/// The value of the first field named `key`.
pub open spec fn spec_lookup(es: Seq<(Seq<char>, FieldView)>, key: Seq<char>) -> Option<FieldView>
    decreases es.len(),
{
    if es.len() == 0 {
        None
    } else if es[0].0 == key {
        Some(es[0].1)
    } else {
        spec_lookup(es.drop_first(), key)
    }
}

/// The value of field `key` of a report.
pub open spec fn spec_field(f: JsonFields, key: Seq<char>) -> Option<FieldView> {
    spec_lookup(fields_view(f), key)
}

/// `value[key].as_bool().unwrap_or(false)`.
pub open spec fn spec_bool_field(f: JsonFields, key: Seq<char>) -> bool {
    spec_field(f, key) == Some(FieldView::Bool(true))
}

/// `value[key].as_u64().unwrap_or(0)`.
pub open spec fn spec_count_field(f: JsonFields, key: Seq<char>) -> nat {
    match spec_field(f, key) {
        Some(FieldView::Unsigned(n)) => n as nat,
        _ => 0,
    }
}

/// The index of the first field named `key`.
pub fn find_field(f: &JsonFields, key: &str) -> (r: Option<usize>)
    ensures
        match r {
            Some(i) => i < f.entries.len() && spec_field(*f, key@) == Some(f.entries@[i as int].1@),
            None => spec_field(*f, key@) is None,
        },
{
    let ghost v = fields_view(*f);
    assert(v.skip(0) =~= v);
    let mut i: usize = 0;
    while i < f.entries.len()
        invariant
            i <= f.entries.len(),
            v == fields_view(*f),
            spec_lookup(v, key@) == spec_lookup(v.skip(i as int), key@),
        decreases f.entries.len() - i,
    {
        let k = chars_of(f.entries[i].0.as_str());
        assert(v.skip(i as int)[0] == v[i as int]);
        if chars_eq_str(&k, key) {
            return Some(i);
        }
        assert(v.skip(i as int).drop_first() =~= v.skip(i + 1));
        i = i + 1;
    }
    assert(v.skip(i as int).len() == 0);
    None
}

/// Whether the report has a field `key`, whatever its value.
pub fn has_field(f: &JsonFields, key: &str) -> (r: bool)
    ensures
        r == (spec_field(*f, key@) is Some),
{
    find_field(f, key).is_some()
}

/// The flag `key`: `false` unless the field is `true`.
pub fn bool_field(f: &JsonFields, key: &str) -> (r: bool)
    ensures
        r == spec_bool_field(*f, key@),
{
    match find_field(f, key) {
        Some(i) => match &f.entries[i].1 {
            FieldValue::Bool(b) => *b,
            _ => false,
        },
        None => false,
    }
}

/// The count `key`: 0 unless the field is a non-negative integer.
pub fn usize_field(f: &JsonFields, key: &str) -> (r: u64)
    ensures
        r == spec_count_field(*f, key@),
{
    match find_field(f, key) {
        Some(i) => match &f.entries[i].1 {
            FieldValue::Unsigned(n) => *n,
            _ => 0,
        },
        None => 0,
    }
}

/// Whether field `key` is the text `want`.
fn text_field_is(f: &JsonFields, key: &str, want: &str) -> (r: bool)
    ensures
        r == (spec_field(*f, key@) == Some(FieldView::Text(want@))),
{
    match find_field(f, key) {
        Some(i) => match &f.entries[i].1 {
            FieldValue::Text(s) => {
                let c = chars_of(s.as_str());
                chars_eq_str(&c, want)
            },
            _ => false,
        },
        None => false,
    }
}

/// A report passes when its `pass` flag is set or its `status` is `PASS`.
pub open spec fn spec_pass_field(f: JsonFields) -> bool {
    spec_bool_field(f, "pass"@) || spec_field(f, "status"@) == Some(FieldView::Text("PASS"@))
}

pub fn pass_field(f: &JsonFields) -> (r: bool)
    ensures
        r == spec_pass_field(*f),
{
    bool_field(f, "pass") || text_field_is(f, "status", "PASS")
}

/// The active scenarios of a replay dashboard: `active_total` where the
/// report has that field, else `total`.
pub open spec fn spec_replay_active_total(f: JsonFields) -> nat {
    if spec_field(f, "active_total"@) is Some {
        spec_count_field(f, "active_total"@)
    } else {
        spec_count_field(f, "total"@)
    }
}

pub fn replay_active_total(f: &JsonFields) -> (r: u64)
    ensures
        r == spec_replay_active_total(*f),
{
    if has_field(f, "active_total") {
        usize_field(f, "active_total")
    } else {
        usize_field(f, "total")
    }
}

/// The failed active scenarios of a replay dashboard: `failed_active` where
/// the report has that field, else `failed`.
pub open spec fn spec_replay_active_failed(f: JsonFields) -> nat {
    if spec_field(f, "failed_active"@) is Some {
        spec_count_field(f, "failed_active"@)
    } else {
        spec_count_field(f, "failed"@)
    }
}

pub fn replay_active_failed(f: &JsonFields) -> (r: u64)
    ensures
        r == spec_replay_active_failed(*f),
{
    if has_field(f, "failed_active") {
        usize_field(f, "failed_active")
    } else {
        usize_field(f, "failed")
    }
}

/// The verdict read from a report: its `pass` flag where it has a boolean
/// one, else whether its `status` text is `PASS`, else `otherwise`.
pub open spec fn spec_report_verdict(f: JsonFields, otherwise: bool) -> bool {
    match spec_field(f, "pass"@) {
        Some(FieldView::Bool(b)) => b,
        _ => match spec_field(f, "status"@) {
            Some(FieldView::Text(s)) => s == "PASS"@,
            _ => otherwise,
        },
    }
}

fn report_verdict(f: &JsonFields, otherwise: bool) -> (r: bool)
    ensures
        r == spec_report_verdict(*f, otherwise),
{
    if let Some(i) = find_field(f, "pass") {
        if let FieldValue::Bool(b) = &f.entries[i].1 {
            return *b;
        }
    }
    match find_field(f, "status") {
        Some(i) => match &f.entries[i].1 {
            FieldValue::Text(s) => {
                let c = chars_of(s.as_str());
                chars_eq_str(&c, "PASS")
            },
            _ => otherwise,
        },
        None => otherwise,
    }
}

/// Whether an artifact counts as passing, given the report read from it
/// (`None` where it could not be read or parsed): an unreadable report
/// fails, and a report with neither verdict fails.
pub fn artifact_pass(report: &Option<JsonFields>) -> (r: bool)
    ensures
        r == match report {
            Some(f) => spec_report_verdict(*f, false),
            None => false,
        },
{
    match report {
        Some(f) => report_verdict(f, false),
        None => false,
    }
}

/// Whether an artifact at `path` counts as passing for the parity gate: a file
/// other than JSON passes; a JSON report that could not be read fails; a
/// report with neither verdict passes.
pub fn artifact_is_pass(path: &str, report: &Option<JsonFields>) -> (r: bool)
    ensures
        r == if !spec_ends_with(path@, ".json"@) {
            true
        } else {
            match report {
                Some(f) => spec_report_verdict(*f, true),
                None => false,
            }
        },
{
    let p = chars_of(path);
    if !ends_with_str(&p, ".json") {
        return true;
    }
    match report {
        Some(f) => report_verdict(f, true),
        None => false,
    }
}

} // verus!
