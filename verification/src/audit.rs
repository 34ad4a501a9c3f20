//! The strict placeholder audit: production sources must be free of the
//! signatures of placeholder behaviour and of fallbacks to a default game.
use vstd::prelude::*;

use crate::clock::{now_utc_unix, spec_unix_stamp};
use crate::text::{before_seq, chars_of, contains, contains_str, extend, extend_str, join, push_dec, replace_char_str, spec_before_seq, spec_contains, spec_dec, spec_join, spec_replace_char, string_of};

verus! {

broadcast use crate::views::group_view_lemmas;

/// The production part of a source file: what comes before its test
/// module.
pub open spec fn spec_production_source(source: Seq<char>) -> Seq<char> {
    spec_before_seq(source, "\n#[cfg(test)]"@)
}

pub fn production_source(source: &str) -> (r: String)
    ensures
        r@ == spec_production_source(source@),
{
    let s = chars_of(source);
    let marker = chars_of("\n#[cfg(test)]");
    string_of(&before_seq(&s, &marker))
}

#[derive(Debug, Clone)]
pub struct AuditCheck {
    pub id: String,
    pub pass: bool,
    pub details: String,
}

pub struct AuditCheckView {
    pub id: Seq<char>,
    pub pass: bool,
    pub details: Seq<char>,
}

pub open spec fn audit_check_view(c: AuditCheck) -> AuditCheckView {
    AuditCheckView { id: c.id@, pass: c.pass, details: c.details@ }
}

pub open spec fn audit_check_views(v: Seq<AuditCheck>) -> Seq<AuditCheckView> {
    Seq::new(v.len(), |i: int| audit_check_view(v[i]))
}

pub open spec fn texts_view(v: Seq<String>) -> Seq<Seq<char>> {
    Seq::new(v.len(), |i: int| v[i]@)
}

/// The patterns found in `source`, in the order given.
pub open spec fn spec_hits(source: Seq<char>, forbidden: Seq<Seq<char>>) -> Seq<Seq<char>>
    decreases forbidden.len(),
{
    if forbidden.len() == 0 {
        Seq::empty()
    } else if spec_contains(source, forbidden.last()) {
        spec_hits(source, forbidden.drop_last()).push(forbidden.last())
    } else {
        spec_hits(source, forbidden.drop_last())
    }
}

/// The check that none of the forbidden patterns occurs in the file.
pub open spec fn spec_check_absent(path: Seq<char>, id: Seq<char>, source: Seq<char>, forbidden: Seq<Seq<char>>) -> AuditCheckView {
    let hits = spec_hits(source, forbidden);
    AuditCheckView {
        id,
        pass: hits.len() == 0,
        details: if hits.len() == 0 {
            path + ": no forbidden signature detected"@
        } else {
            path + ": forbidden signatures found: "@ + spec_join(hits, ", "@)
        },
    }
}

pub fn check_absent(path: &str, id: &str, source: &str, forbidden: &Vec<String>) -> (r: AuditCheck)
    ensures
        audit_check_view(r) == spec_check_absent(path@, id@, source@, texts_view(forbidden@)),
{
    let s = chars_of(source);
    let ghost fv = texts_view(forbidden@);
    let mut hits: Vec<Vec<char>> = Vec::new();
    let mut i: usize = 0;
    while i < forbidden.len()
        invariant
            i <= forbidden.len(),
            s@ == source@,
            fv == texts_view(forbidden@),
            hits.deep_view() == spec_hits(source@, fv.take(i as int)),
        decreases forbidden.len() - i,
    {
        assert(fv.take(i + 1).drop_last() =~= fv.take(i as int));
        let p = chars_of(forbidden[i].as_str());
        if contains(&s, &p) {
            let ghost before = hits.deep_view();
            hits.push(p);
            assert(hits.deep_view() =~= before.push(fv[i as int]));
        }
        i = i + 1;
    }
    assert(fv.take(forbidden.len() as int) =~= fv);
    let mut details = chars_of(path);
    if hits.len() == 0 {
        extend_str(&mut details, ": no forbidden signature detected");
    } else {
        extend_str(&mut details, ": forbidden signatures found: ");
        let sep = chars_of(", ");
        let joined = join(&hits, &sep);
        extend(&mut details, &joined);
    }
    AuditCheck { id: string_of(&chars_of(id)), pass: hits.len() == 0, details: string_of(&details) }
}

/// The signatures of a frontend that falls back to a default game when
/// loading the content fails.
pub open spec fn spec_fallback_patterns() -> Seq<Seq<char>> {
    seq![
        "bootstrap_game_state_from_default_content().unwrap_or_default()"@,
        "bootstrap_game_state_from_default_content().unwrap_or_else(|_| GameState::default())"@,
        "bootstrap_game_state_from_default_content()\n        .unwrap_or_else(|_| GameState::default())"@,
        "bootstrap_game_state_from_default_content()\n        .unwrap_or_else(|err| GameState::default())"@,
        "bootstrap_game_state_from_default_content() {\n        Ok("@,
    ]
}

/// Whether the production part of a frontend source falls back to a
/// default game: by one of the signatures, or by matching on the
/// bootstrap result and building a default state.
pub open spec fn spec_falls_back(source: Seq<char>) -> bool {
    let p = spec_production_source(source);
    (exists|i: int| 0 <= i < spec_fallback_patterns().len() && spec_contains(p, #[trigger] spec_fallback_patterns()[i]))
        || (spec_contains(p, "match bootstrap_game_state_from_default_content"@) && spec_contains(p, "GameState::default()"@))
}

pub fn falls_back(source: &str) -> (r: bool)
    ensures
        r == spec_falls_back(source@),
{
    let p = chars_of(production_source(source).as_str());
    let patterns = vec![
        "bootstrap_game_state_from_default_content().unwrap_or_default()",
        "bootstrap_game_state_from_default_content().unwrap_or_else(|_| GameState::default())",
        "bootstrap_game_state_from_default_content()\n        .unwrap_or_else(|_| GameState::default())",
        "bootstrap_game_state_from_default_content()\n        .unwrap_or_else(|err| GameState::default())",
        "bootstrap_game_state_from_default_content() {\n        Ok(",
    ];
    let ghost target = spec_fallback_patterns();
    assert(Seq::new(patterns@.len(), |i: int| patterns@[i]@) =~= target);
    let mut direct = false;
    let mut i: usize = 0;
    while i < patterns.len()
        invariant
            i <= patterns.len(),
            patterns@.len() == target.len(),
            target == spec_fallback_patterns(),
            forall|k: int| 0 <= k < patterns@.len() ==> patterns@[k]@ == target[k],
            p@ == spec_production_source(source@),
            direct == exists|k: int| 0 <= k < i && spec_contains(p@, #[trigger] target[k]),
        decreases patterns.len() - i,
    {
        if contains_str(&p, patterns[i]) {
            assert(spec_contains(p@, target[i as int]));
            direct = true;
        }
        i = i + 1;
    }
    direct || (contains_str(&p, "match bootstrap_game_state_from_default_content") && contains_str(&p, "GameState::default()"))
}

/// The frontend sources that must not fall back to a default game.
pub open spec fn spec_frontend_paths() -> Seq<Seq<char>> {
    seq![
        "crates/omega-tui/src/lib.rs"@,
        "crates/omega-bevy/src/lib.rs"@,
        "crates/omega-tui/src/bin/omega-tui-app.rs"@,
        "crates/omega-bevy/src/bin/omega-bevy-app.rs"@,
    ]
}

pub fn frontend_paths() -> (r: Vec<String>)
    ensures
        texts_view(r@) == spec_frontend_paths(),
{
    let r = vec![
        string_of(&chars_of("crates/omega-tui/src/lib.rs")),
        string_of(&chars_of("crates/omega-bevy/src/lib.rs")),
        string_of(&chars_of("crates/omega-tui/src/bin/omega-tui-app.rs")),
        string_of(&chars_of("crates/omega-bevy/src/bin/omega-bevy-app.rs")),
    ];
    assert(texts_view(r@) =~= spec_frontend_paths());
    r
}

/// The frontends whose sources fall back, in order.
pub open spec fn spec_offenders(files: Seq<(Seq<char>, Seq<char>)>) -> Seq<Seq<char>>
    decreases files.len(),
{
    if files.len() == 0 {
        Seq::empty()
    } else if spec_falls_back(files.last().1) {
        spec_offenders(files.drop_last()).push(files.last().0)
    } else {
        spec_offenders(files.drop_last())
    }
}

pub open spec fn files_view(v: Seq<(String, String)>) -> Seq<(Seq<char>, Seq<char>)> {
    Seq::new(v.len(), |i: int| (v[i].0@, v[i].1@))
}

/// The check that no frontend falls back to a default game.
pub open spec fn spec_fallback_check(files: Seq<(Seq<char>, Seq<char>)>) -> AuditCheckView {
    let offenders = spec_offenders(files);
    AuditCheckView {
        id: "bootstrap_fallback_to_default_absent"@,
        pass: offenders.len() == 0,
        details: if offenders.len() == 0 {
            "no bootstrap fallback-to-default signatures found in playable frontends"@
        } else {
            "fallback signatures present in: "@ + spec_join(offenders, ", "@)
        },
    }
}

/// The fallback check over the frontend sources, each given with its path.
pub fn check_bootstrap_fallback_absent(files: &Vec<(String, String)>) -> (r: AuditCheck)
    ensures
        audit_check_view(r) == spec_fallback_check(files_view(files@)),
{
    let ghost fv = files_view(files@);
    let mut offenders: Vec<Vec<char>> = Vec::new();
    let mut i: usize = 0;
    while i < files.len()
        invariant
            i <= files.len(),
            fv == files_view(files@),
            offenders.deep_view() == spec_offenders(fv.take(i as int)),
        decreases files.len() - i,
    {
        assert(fv.take(i + 1).drop_last() =~= fv.take(i as int));
        if falls_back(files[i].1.as_str()) {
            let ghost before = offenders.deep_view();
            offenders.push(chars_of(files[i].0.as_str()));
            assert(offenders.deep_view() =~= before.push(fv[i as int].0));
        }
        i = i + 1;
    }
    assert(fv.take(files.len() as int) =~= fv);
    let details = if offenders.len() == 0 {
        chars_of("no bootstrap fallback-to-default signatures found in playable frontends")
    } else {
        let mut d = chars_of("fallback signatures present in: ");
        let sep = chars_of(", ");
        let joined = join(&offenders, &sep);
        extend(&mut d, &joined);
        d
    };
    AuditCheck {
        id: string_of(&chars_of("bootstrap_fallback_to_default_absent")),
        pass: offenders.len() == 0,
        details: string_of(&details),
    }
}

/// The source texts the audit reads; each frontend with its path.
pub struct AuditSources {
    pub content_lib: String,
    pub core_lib: String,
    pub refresh_source: String,
    pub frontends: Vec<(String, String)>,
}

pub open spec fn spec_content_patterns() -> Seq<Seq<char>> {
    seq!["city_placeholder_assignment"@]
}

pub open spec fn spec_core_patterns() -> Seq<Seq<char>> {
    seq!["legacy command resolved with no additional world effect"@, "frontend handles this command"@]
}

pub open spec fn spec_refresh_patterns() -> Seq<Seq<char>> {
    seq![
        "target/classic-"@,
        "classic-command-parity-matrix.json"@,
        "classic-core-model-parity.json"@,
        "classic-magic-item-parity.json"@,
        "classic-combat-encounter-parity.json"@,
        "classic-site-service-parity-matrix.json"@,
        "classic-progression-branch-matrix.json"@,
        "classic-frontend-workflow-parity.json"@,
        "frontend-command-parity.json"@,
        "classic-parity-regression-dashboard.json"@,
        "classic-burnin-window.json"@,
    ]
}

/// The checks of the audit, in order.
pub open spec fn spec_audit_checks(s: AuditSources) -> Seq<AuditCheckView> {
    seq![
        spec_check_absent("crates/omega-content/src/lib.rs"@, "city_placeholder_assignment_removed"@, s.content_lib@, spec_content_patterns()),
        spec_fallback_check(files_view(s.frontends@)),
        spec_check_absent("crates/omega-core/src/lib.rs"@, "no_generic_noop_legacy_resolution"@, s.core_lib@, spec_core_patterns()),
        spec_check_absent("crates/omega-tools/src/bin/true_parity_refresh.rs"@, "true_refresh_not_proxy_fed"@, s.refresh_source@, spec_refresh_patterns()),
    ]
}

fn text(s: &str) -> (r: String)
    ensures
        r@ == s@,
{
    string_of(&chars_of(s))
}

pub fn audit_checks(s: &AuditSources) -> (r: Vec<AuditCheck>)
    ensures
        audit_check_views(r@) == spec_audit_checks(*s),
{
    let content = vec![text("city_placeholder_assignment")];
    assert(texts_view(content@) =~= spec_content_patterns());
    let core = vec![text("legacy command resolved with no additional world effect"), text("frontend handles this command")];
    assert(texts_view(core@) =~= spec_core_patterns());
    let refresh = vec![
        text("target/classic-"),
        text("classic-command-parity-matrix.json"),
        text("classic-core-model-parity.json"),
        text("classic-magic-item-parity.json"),
        text("classic-combat-encounter-parity.json"),
        text("classic-site-service-parity-matrix.json"),
        text("classic-progression-branch-matrix.json"),
        text("classic-frontend-workflow-parity.json"),
        text("frontend-command-parity.json"),
        text("classic-parity-regression-dashboard.json"),
        text("classic-burnin-window.json"),
    ];
    assert(texts_view(refresh@) =~= spec_refresh_patterns());
    let c1 = check_absent("crates/omega-content/src/lib.rs", "city_placeholder_assignment_removed", s.content_lib.as_str(), &content);
    let c2 = check_bootstrap_fallback_absent(&s.frontends);
    let c3 = check_absent("crates/omega-core/src/lib.rs", "no_generic_noop_legacy_resolution", s.core_lib.as_str(), &core);
    let c4 = check_absent("crates/omega-tools/src/bin/true_parity_refresh.rs", "true_refresh_not_proxy_fed", s.refresh_source.as_str(), &refresh);
    let r = vec![c1, c2, c3, c4];
    assert(audit_check_views(r@) =~= spec_audit_checks(*s));
    r
}

#[derive(Debug, Clone)]
pub struct AuditReport {
    pub generated_at_utc: String,
    pub total: usize,
    pub passed: usize,
    pub failed: usize,
    pub status: String,
    pub checks: Vec<AuditCheck>,
}

pub open spec fn spec_audit_passed(cs: Seq<AuditCheckView>) -> nat
    decreases cs.len(),
{
    if cs.len() == 0 {
        0
    } else {
        spec_audit_passed(cs.drop_last()) + if cs.last().pass {
            1nat
        } else {
            0nat
        }
    }
}

proof fn lemma_audit_passed_le(cs: Seq<AuditCheckView>)
    ensures
        spec_audit_passed(cs) <= cs.len(),
    decreases cs.len(),
{
    if cs.len() > 0 {
        lemma_audit_passed_le(cs.drop_last());
    }
}

/// `r` sums up the checks: it keeps them, counts those that passed, and its
/// status is `PASS` when none failed.
pub open spec fn is_audit_report_of(r: AuditReport, cs: Seq<AuditCheckView>) -> bool {
    &&& audit_check_views(r.checks@) == cs
    &&& r.total == cs.len()
    &&& r.passed == spec_audit_passed(cs)
    &&& r.failed == r.total - r.passed
    &&& r.status@ == (if r.failed == 0 { "PASS"@ } else { "FAIL"@ })
}

/// The audit report of the given checks, stamped `generated_at_utc`.
pub fn audit_report_at(checks: Vec<AuditCheck>, generated_at_utc: String) -> (r: AuditReport)
    ensures
        is_audit_report_of(r, audit_check_views(checks@)),
        r.generated_at_utc@ == generated_at_utc@,
{
    let ghost cv = audit_check_views(checks@);
    let mut passed: usize = 0;
    let mut i: usize = 0;
    while i < checks.len()
        invariant
            i <= checks.len(),
            cv == audit_check_views(checks@),
            passed == spec_audit_passed(cv.take(i as int)),
        decreases checks.len() - i,
    {
        assert(cv.take(i + 1).drop_last() =~= cv.take(i as int));
        proof {
            lemma_audit_passed_le(cv.take(i as int));
        }
        if checks[i].pass {
            passed = passed + 1;
        }
        i = i + 1;
    }
    assert(cv.take(checks.len() as int) =~= cv);
    proof {
        lemma_audit_passed_le(cv);
    }
    let total = checks.len();
    let failed = total - passed;
    let status = if failed == 0 {
        text("PASS")
    } else {
        text("FAIL")
    };
    AuditReport { generated_at_utc, total, passed, failed, status, checks }
}

/// The audit report of the sources, stamped with the current time.
pub fn audit_report(s: &AuditSources) -> (r: AuditReport)
    ensures
        is_audit_report_of(r, spec_audit_checks(*s)),
        exists|secs: u64| r.generated_at_utc@ == spec_unix_stamp(secs as nat),
{
    let checks = audit_checks(s);
    let stamp = now_utc_unix();
    audit_report_at(checks, stamp)
}

pub open spec fn spec_audit_row_md(c: AuditCheckView) -> Seq<char> {
    "| "@ + c.id + " | "@ + (if c.pass { "PASS"@ } else { "FAIL"@ }) + " | "@ + spec_replace_char(c.details, '|', "\\|"@)
        + " |\n"@
}

pub open spec fn spec_audit_rows_md(cs: Seq<AuditCheckView>) -> Seq<char>
    decreases cs.len(),
{
    if cs.len() == 0 {
        Seq::empty()
    } else {
        spec_audit_rows_md(cs.drop_last()) + spec_audit_row_md(cs.last())
    }
}

/// The Markdown rendering of an audit report.
pub open spec fn spec_audit_markdown(r: AuditReport) -> Seq<char> {
    "# Strict Placeholder Audit\n\n- Status: "@ + r.status@ + "\n- Passed: "@ + spec_dec(r.passed as nat) + "/"@
        + spec_dec(r.total as nat) + "\n\n| Check | Status | Details |\n|---|---|---|\n"@ + spec_audit_rows_md(
        audit_check_views(r.checks@),
    )
}

pub fn push_audit_row(out: &mut Vec<char>, c: &AuditCheck)
    ensures
        final(out)@ == old(out)@ + spec_audit_row_md(audit_check_view(*c)),
{
    extend_str(out, "| ");
    extend_str(out, c.id.as_str());
    extend_str(out, " | ");
    if c.pass {
        extend_str(out, "PASS");
    } else {
        extend_str(out, "FAIL");
    }
    extend_str(out, " | ");
    let d = chars_of(c.details.as_str());
    let escaped = replace_char_str(&d, '|', "\\|");
    extend(out, &escaped);
    extend_str(out, " |\n");
}

pub fn audit_markdown(r: &AuditReport) -> (md: String)
    ensures
        md@ == spec_audit_markdown(*r),
{
    let mut out: Vec<char> = Vec::new();
    extend_str(&mut out, "# Strict Placeholder Audit\n\n- Status: ");
    extend_str(&mut out, r.status.as_str());
    extend_str(&mut out, "\n- Passed: ");
    push_dec(&mut out, r.passed as u64);
    extend_str(&mut out, "/");
    push_dec(&mut out, r.total as u64);
    extend_str(&mut out, "\n\n| Check | Status | Details |\n|---|---|---|\n");
    let ghost head = out@;
    let ghost v = audit_check_views(r.checks@);
    let mut i: usize = 0;
    while i < r.checks.len()
        invariant
            i <= r.checks.len(),
            v == audit_check_views(r.checks@),
            out@ == head + spec_audit_rows_md(v.take(i as int)),
        decreases r.checks.len() - i,
    {
        assert(v.take(i + 1).drop_last() =~= v.take(i as int));
        push_audit_row(&mut out, &r.checks[i]);
        i = i + 1;
    }
    assert(v.take(r.checks.len() as int) =~= v);
    string_of(&out)
}

} // verus!
