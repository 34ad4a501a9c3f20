//! The parity certification: the certification baseline of artifacts, the
//! components that must all pass, and the defects of those that fail.
use vstd::prelude::*;

use crate::clock::{now_utc_unix, spec_unix_stamp};
use crate::fields::{has_field, spec_field, JsonFields};
use crate::reports::{push_bool, spec_bool_text};
use crate::text::{chars_of, extend_str, push_dec, spec_dec, string_of};

verus! {

broadcast use crate::views::group_view_lemmas;

/// The artifacts the certification baseline requires.
pub open spec fn spec_certification_required() -> Seq<Seq<char>> {
    seq![
        "target/certification/contracts/legacy-mechanics-ledger.json"@,
        "target/certification/contracts/rust-mechanics-ledger.json"@,
        "target/certification/contracts/mechanics_mapping.json"@,
        "target/certification/diff/legacy-headless-replay.json"@,
        "target/certification/diff/rust-headless-replay.json"@,
        "target/certification/diff/mechanics-differential.json"@,
        "target/certification/diff/service-branch-differential.json"@,
        "target/certification/coverage/branch-coverage.json"@,
        "target/certification/smoke/blackbox-adversarial.json"@,
    ]
}

pub open spec fn texts_view(v: Seq<String>) -> Seq<Seq<char>> {
    Seq::new(v.len(), |i: int| v[i]@)
}

fn text(s: &str) -> (r: String)
    ensures
        r@ == s@,
{
    string_of(&chars_of(s))
}

pub fn certification_required() -> (r: Vec<String>)
    ensures
        texts_view(r@) == spec_certification_required(),
{
    let r = vec![
        text("target/certification/contracts/legacy-mechanics-ledger.json"),
        text("target/certification/contracts/rust-mechanics-ledger.json"),
        text("target/certification/contracts/mechanics_mapping.json"),
        text("target/certification/diff/legacy-headless-replay.json"),
        text("target/certification/diff/rust-headless-replay.json"),
        text("target/certification/diff/mechanics-differential.json"),
        text("target/certification/diff/service-branch-differential.json"),
        text("target/certification/coverage/branch-coverage.json"),
        text("target/certification/smoke/blackbox-adversarial.json"),
    ];
    assert(texts_view(r@) =~= spec_certification_required());
    r
}

/// The record of a certification artifact.
#[derive(Debug, Clone)]
pub struct BaselineArtifact {
    pub path: String,
    pub exists: bool,
    pub size_bytes: u64,
}

#[derive(Debug, Clone)]
pub struct CertificationBaseline {
    pub generated_at_utc: String,
    pub total: usize,
    pub present: usize,
    pub missing: usize,
    pub pass: bool,
    pub artifacts: Vec<BaselineArtifact>,
}

pub open spec fn spec_existing(v: Seq<BaselineArtifact>) -> nat
    decreases v.len(),
{
    if v.len() == 0 {
        0
    } else {
        spec_existing(v.drop_last()) + if v.last().exists {
            1nat
        } else {
            0nat
        }
    }
}

proof fn lemma_existing_le(v: Seq<BaselineArtifact>)
    ensures
        spec_existing(v) <= v.len(),
    decreases v.len(),
{
    if v.len() > 0 {
        lemma_existing_le(v.drop_last());
    }
}

/// The certification baseline of the given records, stamped
/// `generated_at_utc`: it passes when none is missing.
pub fn certification_baseline_at(artifacts: Vec<BaselineArtifact>, generated_at_utc: String) -> (r: CertificationBaseline)
    ensures
        r.artifacts@ == artifacts@,
        r.total == artifacts.len(),
        r.present == spec_existing(artifacts@),
        r.missing == r.total - r.present,
        r.pass == (r.missing == 0),
        r.generated_at_utc@ == generated_at_utc@,
{
    let ghost v = artifacts@;
    let mut present: usize = 0;
    let mut i: usize = 0;
    while i < artifacts.len()
        invariant
            i <= artifacts.len(),
            v == artifacts@,
            present == spec_existing(v.take(i as int)),
        decreases artifacts.len() - i,
    {
        assert(v.take(i + 1).drop_last() =~= v.take(i as int));
        proof {
            lemma_existing_le(v.take(i as int));
        }
        if artifacts[i].exists {
            present = present + 1;
        }
        i = i + 1;
    }
    assert(v.take(artifacts.len() as int) =~= v);
    proof {
        lemma_existing_le(v);
    }
    let total = artifacts.len();
    let missing = total - present;
    CertificationBaseline { generated_at_utc, total, present, missing, pass: missing == 0, artifacts }
}

/// A report with a verdict and optional counts.
#[derive(Debug, Clone, Copy)]
pub struct GenericPass {
    pub pass: bool,
    pub total: Option<usize>,
    pub passed: Option<usize>,
    pub failed: Option<usize>,
}

/// The mechanics mapping report, as the certification reads it.
#[derive(Debug, Clone, Copy)]
pub struct MappingSummary {
    pub pass: bool,
    pub unresolved: usize,
    pub unknown: usize,
}

/// The branch coverage report, as the certification reads it.
#[derive(Debug, Clone, Copy)]
pub struct CoverageSummary {
    pub pass: bool,
    pub missing: usize,
}

#[derive(Debug, Clone)]
pub struct ComponentCheck {
    pub id: String,
    pub pass: bool,
    pub details: String,
}

pub struct ComponentCheckView {
    pub id: Seq<char>,
    pub pass: bool,
    pub details: Seq<char>,
}

pub open spec fn component_check_views(v: Seq<ComponentCheck>) -> Seq<ComponentCheckView> {
    Seq::new(v.len(), |i: int| ComponentCheckView { id: v[i].id@, pass: v[i].pass, details: v[i].details@ })
}

/// The guard against the runtime branch contract being overwritten by a
/// check report: it must have `branches` and no `checks`.
pub open spec fn spec_collision_check(report: Option<JsonFields>) -> (bool, Seq<char>) {
    match report {
        None => (false, "missing target/rust-site-branch-contract.json"@),
        Some(f) => {
            let b = spec_field(f, "branches"@) is Some;
            let c = spec_field(f, "checks"@) is Some;
            (b && !c, "has_branches="@ + spec_bool_text(b) + " has_checks="@ + spec_bool_text(c))
        },
    }
}

pub fn collision_check(report: &Option<JsonFields>) -> (r: (bool, String))
    ensures
        r.0 == spec_collision_check(*report).0,
        r.1@ == spec_collision_check(*report).1,
{
    match report {
        None => (false, text("missing target/rust-site-branch-contract.json")),
        Some(f) => {
            let b = has_field(f, "branches");
            let c = has_field(f, "checks");
            let mut d = chars_of("has_branches=");
            push_bool(&mut d, b);
            extend_str(&mut d, " has_checks=");
            push_bool(&mut d, c);
            (b && !c, string_of(&d))
        },
    }
}

pub open spec fn spec_opt_count(o: Option<usize>) -> nat {
    match o {
        Some(n) => n as nat,
        None => 0,
    }
}

/// `pass=<b> passed=<p>/<t> failed=<f>` of a generic report.
pub open spec fn spec_generic_details(g: GenericPass) -> Seq<char> {
    "pass="@ + spec_bool_text(g.pass) + " passed="@ + spec_dec(spec_opt_count(g.passed)) + "/"@
        + spec_dec(spec_opt_count(g.total)) + " failed="@ + spec_dec(spec_opt_count(g.failed))
}

fn opt_count(o: Option<usize>) -> (r: u64)
    ensures
        r == spec_opt_count(o),
{
    match o {
        Some(n) => n as u64,
        None => 0,
    }
}

fn generic_details(g: &GenericPass) -> (r: String)
    ensures
        r@ == spec_generic_details(*g),
{
    let mut d = chars_of("pass=");
    push_bool(&mut d, g.pass);
    extend_str(&mut d, " passed=");
    push_dec(&mut d, opt_count(g.passed));
    extend_str(&mut d, "/");
    push_dec(&mut d, opt_count(g.total));
    extend_str(&mut d, " failed=");
    push_dec(&mut d, opt_count(g.failed));
    string_of(&d)
}

/// What the certification reads.
pub struct CertificationEvidence {
    pub baseline: CertificationBaseline,
    pub mapping: MappingSummary,
    pub mechanics_diff: GenericPass,
    pub service_diff: GenericPass,
    pub coverage: CoverageSummary,
    pub blackbox: GenericPass,
    pub collision: Option<JsonFields>,
}

/// The components of the certification, in order.
pub open spec fn spec_certification_components(e: CertificationEvidence) -> Seq<ComponentCheckView> {
    seq![
        ComponentCheckView {
            id: "baseline_artifacts"@,
            pass: e.baseline.pass,
            details: "present="@ + spec_dec(e.baseline.present as nat) + "/"@ + spec_dec(e.baseline.total as nat)
                + " missing="@ + spec_dec(e.baseline.missing as nat),
        },
        ComponentCheckView {
            id: "mapping"@,
            pass: e.mapping.pass && e.mapping.unknown == 0 && e.mapping.unresolved == 0,
            details: "pass="@ + spec_bool_text(e.mapping.pass) + " unknown="@ + spec_dec(e.mapping.unknown as nat)
                + " unresolved="@ + spec_dec(e.mapping.unresolved as nat),
        },
        ComponentCheckView { id: "mechanics_differential"@, pass: e.mechanics_diff.pass, details: spec_generic_details(e.mechanics_diff) },
        ComponentCheckView { id: "service_branch_differential"@, pass: e.service_diff.pass, details: spec_generic_details(e.service_diff) },
        ComponentCheckView {
            id: "branch_coverage"@,
            pass: e.coverage.pass && e.coverage.missing == 0,
            details: "pass="@ + spec_bool_text(e.coverage.pass) + " missing="@ + spec_dec(e.coverage.missing as nat),
        },
        ComponentCheckView { id: "adversarial_blackbox"@, pass: e.blackbox.pass, details: spec_generic_details(e.blackbox) },
        ComponentCheckView {
            id: "artifact_collision_guard"@,
            pass: spec_collision_check(e.collision).0,
            details: spec_collision_check(e.collision).1,
        },
    ]
}

fn component(id: &str, pass: bool, details: String) -> (r: ComponentCheck)
    ensures
        component_check_views(seq![r])[0] == (ComponentCheckView { id: id@, pass, details: details@ }),
{
    ComponentCheck { id: text(id), pass, details }
}

pub fn certification_components(e: &CertificationEvidence) -> (r: Vec<ComponentCheck>)
    ensures
        component_check_views(r@) == spec_certification_components(*e),
{
    let mut d1 = chars_of("present=");
    push_dec(&mut d1, e.baseline.present as u64);
    extend_str(&mut d1, "/");
    push_dec(&mut d1, e.baseline.total as u64);
    extend_str(&mut d1, " missing=");
    push_dec(&mut d1, e.baseline.missing as u64);
    let mut d2 = chars_of("pass=");
    push_bool(&mut d2, e.mapping.pass);
    extend_str(&mut d2, " unknown=");
    push_dec(&mut d2, e.mapping.unknown as u64);
    extend_str(&mut d2, " unresolved=");
    push_dec(&mut d2, e.mapping.unresolved as u64);
    let mut d5 = chars_of("pass=");
    push_bool(&mut d5, e.coverage.pass);
    extend_str(&mut d5, " missing=");
    push_dec(&mut d5, e.coverage.missing as u64);
    let (cpass, cdetails) = collision_check(&e.collision);
    let r = vec![
        component("baseline_artifacts", e.baseline.pass, string_of(&d1)),
        component("mapping", e.mapping.pass && e.mapping.unknown == 0 && e.mapping.unresolved == 0, string_of(&d2)),
        component("mechanics_differential", e.mechanics_diff.pass, generic_details(&e.mechanics_diff)),
        component("service_branch_differential", e.service_diff.pass, generic_details(&e.service_diff)),
        component("branch_coverage", e.coverage.pass && e.coverage.missing == 0, string_of(&d5)),
        component("adversarial_blackbox", e.blackbox.pass, generic_details(&e.blackbox)),
        component("artifact_collision_guard", cpass, cdetails),
    ];
    assert(component_check_views(r@) =~= spec_certification_components(*e));
    r
}

#[derive(Debug, Clone)]
pub struct ParityCertifyReport {
    pub generated_at_utc: String,
    pub total: usize,
    pub passed: usize,
    pub failed: usize,
    pub pass: bool,
    pub components: Vec<ComponentCheck>,
}

pub open spec fn spec_components_passed(cs: Seq<ComponentCheckView>) -> nat
    decreases cs.len(),
{
    if cs.len() == 0 {
        0
    } else {
        spec_components_passed(cs.drop_last()) + if cs.last().pass {
            1nat
        } else {
            0nat
        }
    }
}

proof fn lemma_components_passed_le(cs: Seq<ComponentCheckView>)
    ensures
        spec_components_passed(cs) <= cs.len(),
    decreases cs.len(),
{
    if cs.len() > 0 {
        lemma_components_passed_le(cs.drop_last());
    }
}

/// `r` sums up the components; it passes when none failed.
pub open spec fn is_certify_report_of(r: ParityCertifyReport, cs: Seq<ComponentCheckView>) -> bool {
    &&& component_check_views(r.components@) == cs
    &&& r.total == cs.len()
    &&& r.passed == spec_components_passed(cs)
    &&& r.failed == r.total - r.passed
    &&& r.pass == (r.failed == 0)
}

/// The certification report of the given components, stamped
/// `generated_at_utc`.
pub fn certify_report_at(components: Vec<ComponentCheck>, generated_at_utc: String) -> (r: ParityCertifyReport)
    ensures
        is_certify_report_of(r, component_check_views(components@)),
        r.generated_at_utc@ == generated_at_utc@,
{
    let ghost cv = component_check_views(components@);
    let mut passed: usize = 0;
    let mut i: usize = 0;
    while i < components.len()
        invariant
            i <= components.len(),
            cv == component_check_views(components@),
            passed == spec_components_passed(cv.take(i as int)),
        decreases components.len() - i,
    {
        assert(cv.take(i + 1).drop_last() =~= cv.take(i as int));
        proof {
            lemma_components_passed_le(cv.take(i as int));
        }
        if components[i].pass {
            passed = passed + 1;
        }
        i = i + 1;
    }
    assert(cv.take(components.len() as int) =~= cv);
    proof {
        lemma_components_passed_le(cv);
    }
    let total = components.len();
    let failed = total - passed;
    ParityCertifyReport { generated_at_utc, total, passed, failed, pass: failed == 0, components }
}

/// The certification report, stamped with the current time.
pub fn certify_report(e: &CertificationEvidence) -> (r: ParityCertifyReport)
    ensures
        is_certify_report_of(r, spec_certification_components(*e)),
        exists|secs: u64| r.generated_at_utc@ == spec_unix_stamp(secs as nat),
{
    let components = certification_components(e);
    let stamp = now_utc_unix();
    certify_report_at(components, stamp)
}

/// A defect of the certification.
#[derive(Debug, Clone)]
pub struct CertDefect {
    pub id: String,
    pub severity: String,
    pub area: String,
    pub title: String,
    pub details: String,
}

pub struct CertDefectView {
    pub id: Seq<char>,
    pub severity: Seq<char>,
    pub area: Seq<char>,
    pub title: Seq<char>,
    pub details: Seq<char>,
}

pub open spec fn cert_defect_views(v: Seq<CertDefect>) -> Seq<CertDefectView> {
    Seq::new(v.len(), |i: int| CertDefectView {
        id: v[i].id@,
        severity: v[i].severity@,
        area: v[i].area@,
        title: v[i].title@,
        details: v[i].details@,
    })
}

/// The defects of the failing components, in order.
pub open spec fn spec_cert_defects(cs: Seq<ComponentCheckView>) -> Seq<CertDefectView>
    decreases cs.len(),
{
    if cs.len() == 0 {
        Seq::empty()
    } else if !cs.last().pass {
        spec_cert_defects(cs.drop_last()).push(CertDefectView {
            id: "CERT-"@ + cs.last().id,
            severity: "high"@,
            area: "certification"@,
            title: "Certification component failed: "@ + cs.last().id,
            details: cs.last().details,
        })
    } else {
        spec_cert_defects(cs.drop_last())
    }
}

#[derive(Debug, Clone)]
pub struct CertDefectBoard {
    pub generated_at_utc: String,
    pub total: usize,
    pub open: usize,
    pub defects: Vec<CertDefect>,
}

/// The defect board of a certification report, stamped
/// `generated_at_utc`: every defect is open.
pub fn cert_defect_board_at(report: &ParityCertifyReport, generated_at_utc: String) -> (r: CertDefectBoard)
    ensures
        cert_defect_views(r.defects@) == spec_cert_defects(component_check_views(report.components@)),
        r.total == r.defects.len(),
        r.open == r.defects.len(),
        r.generated_at_utc@ == generated_at_utc@,
{
    let ghost cv = component_check_views(report.components@);
    let mut defects: Vec<CertDefect> = Vec::new();
    let mut i: usize = 0;
    while i < report.components.len()
        invariant
            i <= report.components.len(),
            cv == component_check_views(report.components@),
            cert_defect_views(defects@) == spec_cert_defects(cv.take(i as int)),
        decreases report.components.len() - i,
    {
        assert(cv.take(i + 1).drop_last() =~= cv.take(i as int));
        let c = &report.components[i];
        if !c.pass {
            let mut id = chars_of("CERT-");
            extend_str(&mut id, c.id.as_str());
            let mut title = chars_of("Certification component failed: ");
            extend_str(&mut title, c.id.as_str());
            let ghost before = cert_defect_views(defects@);
            let d = CertDefect {
                id: string_of(&id),
                severity: text("high"),
                area: text("certification"),
                title: string_of(&title),
                details: c.details.clone(),
            };
            defects.push(d);
            assert(cert_defect_views(defects@) =~= before.push(cert_defect_views(seq![d])[0]));
        }
        i = i + 1;
    }
    assert(cv.take(report.components.len() as int) =~= cv);
    let n = defects.len();
    CertDefectBoard { generated_at_utc, total: n, open: n, defects }
}

/// The defect board of a certification report, stamped with the current
/// time.
pub fn cert_defect_board(report: &ParityCertifyReport) -> (r: CertDefectBoard)
    ensures
        cert_defect_views(r.defects@) == spec_cert_defects(component_check_views(report.components@)),
        r.total == r.defects.len(),
        r.open == r.defects.len(),
        exists|secs: u64| r.generated_at_utc@ == spec_unix_stamp(secs as nat),
{
    let stamp = now_utc_unix();
    cert_defect_board_at(report, stamp)
}

} // verus!
