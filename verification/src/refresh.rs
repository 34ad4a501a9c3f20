//! The true-parity refresh: check matrices summed up, the regression
//! dashboard over every parity component, the burn-in window, the deviation
//! ledger of the tracks and the frozen baseline of artifacts.
use vstd::prelude::*;

use crate::clock::{now_utc_unix, spec_unix_stamp};
use crate::fields::{
    bool_field, pass_field, replay_active_failed, replay_active_total, spec_bool_field,
    spec_count_field, spec_pass_field, spec_replay_active_failed, spec_replay_active_total,
    spec_field, usize_field, FieldView, JsonFields,
};
use crate::deviations::{deviation, deviation_views, is_deviation_ledger_of, ledger_from_items_at, spec_deviation, DeviationItem, DeviationLedger, DeviationView};
use crate::reports::{push_bool, spec_bool_text};
use crate::text::{chars_of, extend_str, push_dec, push_hex_digits, spec_dec, spec_hex_digits, string_of};

verus! {

broadcast use crate::views::group_view_lemmas;

// ---------------------------------------------------------------------------
// Check matrices
// ---------------------------------------------------------------------------

#[derive(Debug, Clone, PartialEq, Eq)]
pub struct MatrixCheck {
    pub id: String,
    pub passed: bool,
    pub details: String,
}

#[derive(Debug, Clone)]
pub struct TrueMatrix {
    pub generated_at_utc: String,
    pub total: usize,
    pub passed: usize,
    pub failed: usize,
    pub pass: bool,
    pub checks: Vec<MatrixCheck>,
}

/// Number of checks that passed.
pub open spec fn spec_checks_passed(cs: Seq<MatrixCheck>) -> nat
    decreases cs.len(),
{
    if cs.len() == 0 {
        0
    } else {
        spec_checks_passed(cs.drop_last()) + if cs.last().passed {
            1nat
        } else {
            0nat
        }
    }
}

proof fn lemma_checks_passed_le(cs: Seq<MatrixCheck>)
    ensures
        spec_checks_passed(cs) <= cs.len(),
    decreases cs.len(),
{
    if cs.len() > 0 {
        lemma_checks_passed_le(cs.drop_last());
    }
}

/// `m` sums up `checks`: it keeps them, counts them and those that passed,
/// and passes when none failed.
pub open spec fn is_matrix_of(m: TrueMatrix, checks: Seq<MatrixCheck>) -> bool {
    &&& m.checks@ == checks
    &&& m.total == checks.len()
    &&& m.passed == spec_checks_passed(checks)
    &&& m.failed == m.total - m.passed
    &&& m.pass == (m.failed == 0)
}

/// The matrix of the given checks, stamped `generated_at_utc`.
pub fn true_matrix_at(checks: Vec<MatrixCheck>, generated_at_utc: String) -> (r: TrueMatrix)
    ensures
        is_matrix_of(r, checks@),
        r.generated_at_utc@ == generated_at_utc@,
{
    let ghost cs = checks@;
    let mut passed: usize = 0;
    let mut i: usize = 0;
    while i < checks.len()
        invariant
            i <= checks.len(),
            cs == checks@,
            passed == spec_checks_passed(cs.take(i as int)),
        decreases checks.len() - i,
    {
        assert(cs.take(i + 1).drop_last() =~= cs.take(i as int));
        proof {
            lemma_checks_passed_le(cs.take(i as int));
        }
        if checks[i].passed {
            passed = passed + 1;
        }
        i = i + 1;
    }
    assert(cs.take(checks.len() as int) =~= cs);
    proof {
        lemma_checks_passed_le(cs);
    }
    let total = checks.len();
    let failed = total - passed;
    TrueMatrix { generated_at_utc, total, passed, failed, pass: failed == 0, checks }
}

/// The matrix of the given checks, stamped with the current time.
pub fn true_matrix(checks: Vec<MatrixCheck>) -> (r: TrueMatrix)
    ensures
        is_matrix_of(r, checks@),
        exists|secs: u64| r.generated_at_utc@ == spec_unix_stamp(secs as nat),
{
    let stamp = now_utc_unix();
    true_matrix_at(checks, stamp)
}

#[derive(Debug, Clone)]
pub struct TrueCommandBehaviorMatrix {
    pub generated_at_utc: String,
    pub total: usize,
    pub implemented_same_key: usize,
    pub implemented_different_key: usize,
    pub partial: usize,
    pub missing: usize,
    pub key_conflict: usize,
    pub pass: bool,
}

// ---------------------------------------------------------------------------
// Regression dashboard
// ---------------------------------------------------------------------------

#[derive(Debug, Clone, PartialEq, Eq)]
pub struct DashboardComponent {
    pub id: String,
    pub pass: bool,
    pub details: String,
}

pub struct ComponentView {
    pub id: Seq<char>,
    pub pass: bool,
    pub details: Seq<char>,
}

pub open spec fn component_views(v: Seq<DashboardComponent>) -> Seq<ComponentView> {
    Seq::new(v.len(), |i: int| ComponentView { id: v[i].id@, pass: v[i].pass, details: v[i].details@ })
}

/// `passed=<passed>/<total>`.
pub open spec fn spec_passed_details(passed: nat, total: nat) -> Seq<char> {
    "passed="@ + spec_dec(passed) + "/"@ + spec_dec(total)
}

fn passed_details(passed: u64, total: u64) -> (r: String)
    ensures
        r@ == spec_passed_details(passed as nat, total as nat),
{
    let mut out = chars_of("passed=");
    push_dec(&mut out, passed);
    extend_str(&mut out, "/");
    push_dec(&mut out, total);
    string_of(&out)
}

/// A component read from a report: it passes when the report does.
pub open spec fn spec_report_component(id: Seq<char>, f: JsonFields) -> ComponentView {
    ComponentView {
        id,
        pass: spec_pass_field(f),
        details: spec_passed_details(spec_count_field(f, "passed"@), spec_count_field(f, "total"@)),
    }
}

fn report_component(id: &str, f: &JsonFields) -> (r: DashboardComponent)
    ensures
        component_views(seq![r])[0] == spec_report_component(id@, *f),
{
    DashboardComponent {
        id: string_of(&chars_of(id)),
        pass: pass_field(f),
        details: passed_details(usize_field(f, "passed"), usize_field(f, "total")),
    }
}

/// A component read from a check matrix.
pub open spec fn spec_matrix_component(id: Seq<char>, m: TrueMatrix) -> ComponentView {
    ComponentView { id, pass: m.pass, details: spec_passed_details(m.passed as nat, m.total as nat) }
}

fn matrix_component(id: &str, m: &TrueMatrix) -> (r: DashboardComponent)
    ensures
        component_views(seq![r])[0] == spec_matrix_component(id@, *m),
{
    DashboardComponent {
        id: string_of(&chars_of(id)),
        pass: m.pass,
        details: passed_details(m.passed as u64, m.total as u64),
    }
}

/// The startup component: its `pass` flag.
pub open spec fn spec_startup_component(f: JsonFields) -> ComponentView {
    ComponentView {
        id: "startup"@,
        pass: spec_bool_field(f, "pass"@),
        details: spec_passed_details(spec_count_field(f, "passed"@), spec_count_field(f, "total"@)),
    }
}

fn startup_component(f: &JsonFields) -> (r: DashboardComponent)
    ensures
        component_views(seq![r])[0] == spec_startup_component(*f),
{
    DashboardComponent {
        id: string_of(&chars_of("startup")),
        pass: bool_field(f, "pass"),
        details: passed_details(usize_field(f, "passed"), usize_field(f, "total")),
    }
}

/// The mechanics matrix passes when its flag is set and nothing is
/// unknown, non-equivalent on the main tier, unresolved or excluded.
pub open spec fn spec_mechanics_pass(f: JsonFields) -> bool {
    &&& spec_bool_field(f, "pass"@)
    &&& spec_count_field(f, "unknown"@) == 0
    &&& spec_count_field(f, "main_non_equivalent"@) == 0
    &&& spec_count_field(f, "unresolved_gameplay"@) == 0
    &&& spec_count_field(f, "gameplay_excluded"@) == 0
}

pub open spec fn spec_mechanics_details(f: JsonFields) -> Seq<char> {
    "pass="@ + spec_bool_text(spec_bool_field(f, "pass"@)) + " unknown="@ + spec_dec(
        spec_count_field(f, "unknown"@),
    ) + " main_non_equivalent="@ + spec_dec(spec_count_field(f, "main_non_equivalent"@))
        + " unresolved_gameplay="@ + spec_dec(spec_count_field(f, "unresolved_gameplay"@))
        + " gameplay_excluded="@ + spec_dec(spec_count_field(f, "gameplay_excluded"@))
}

fn mechanics_pass(f: &JsonFields) -> (r: bool)
    ensures
        r == spec_mechanics_pass(*f),
{
    bool_field(f, "pass") && usize_field(f, "unknown") == 0 && usize_field(f, "main_non_equivalent") == 0
        && usize_field(f, "unresolved_gameplay") == 0 && usize_field(f, "gameplay_excluded") == 0
}

fn mechanics_details(f: &JsonFields) -> (r: String)
    ensures
        r@ == spec_mechanics_details(*f),
{
    let mut out = chars_of("pass=");
    push_bool(&mut out, bool_field(f, "pass"));
    extend_str(&mut out, " unknown=");
    push_dec(&mut out, usize_field(f, "unknown"));
    extend_str(&mut out, " main_non_equivalent=");
    push_dec(&mut out, usize_field(f, "main_non_equivalent"));
    extend_str(&mut out, " unresolved_gameplay=");
    push_dec(&mut out, usize_field(f, "unresolved_gameplay"));
    extend_str(&mut out, " gameplay_excluded=");
    push_dec(&mut out, usize_field(f, "gameplay_excluded"));
    string_of(&out)
}

pub open spec fn spec_mechanics_component(f: JsonFields) -> ComponentView {
    ComponentView { id: "mechanics"@, pass: spec_mechanics_pass(f), details: spec_mechanics_details(f) }
}

fn mechanics_component(f: &JsonFields) -> (r: DashboardComponent)
    ensures
        component_views(seq![r])[0] == spec_mechanics_component(*f),
{
    DashboardComponent {
        id: string_of(&chars_of("mechanics")),
        pass: mechanics_pass(f),
        details: mechanics_details(f),
    }
}

/// `missing=<missing> partial=<partial>`.
pub open spec fn spec_command_details(c: TrueCommandBehaviorMatrix) -> Seq<char> {
    "missing="@ + spec_dec(c.missing as nat) + " partial="@ + spec_dec(c.partial as nat)
}

fn command_details(c: &TrueCommandBehaviorMatrix) -> (r: String)
    ensures
        r@ == spec_command_details(*c),
{
    let mut out = chars_of("missing=");
    push_dec(&mut out, c.missing as u64);
    extend_str(&mut out, " partial=");
    push_dec(&mut out, c.partial as u64);
    string_of(&out)
}

pub open spec fn spec_command_component(c: TrueCommandBehaviorMatrix) -> ComponentView {
    ComponentView { id: "command"@, pass: c.pass, details: spec_command_details(c) }
}

fn command_component(c: &TrueCommandBehaviorMatrix) -> (r: DashboardComponent)
    ensures
        component_views(seq![r])[0] == spec_command_component(*c),
{
    DashboardComponent { id: string_of(&chars_of("command")), pass: c.pass, details: command_details(c) }
}

/// `active_total=<n> failed_active=<n>` of a replay dashboard.
pub open spec fn spec_replay_details(f: JsonFields) -> Seq<char> {
    "active_total="@ + spec_dec(spec_replay_active_total(f)) + " failed_active="@ + spec_dec(
        spec_replay_active_failed(f),
    )
}

fn replay_details(f: &JsonFields) -> (r: String)
    ensures
        r@ == spec_replay_details(*f),
{
    let mut out = chars_of("active_total=");
    push_dec(&mut out, replay_active_total(f));
    extend_str(&mut out, " failed_active=");
    push_dec(&mut out, replay_active_failed(f));
    string_of(&out)
}

/// The replay component passes when no active scenario failed.
pub open spec fn spec_replay_component(f: JsonFields) -> ComponentView {
    ComponentView { id: "replay_dashboard_active"@, pass: spec_replay_active_failed(f) == 0, details: spec_replay_details(f) }
}

fn replay_component(f: &JsonFields) -> (r: DashboardComponent)
    ensures
        component_views(seq![r])[0] == spec_replay_component(*f),
{
    DashboardComponent {
        id: string_of(&chars_of("replay_dashboard_active")),
        pass: replay_active_failed(f) == 0,
        details: replay_details(f),
    }
}

/// Everything the regression dashboard reads.
pub struct DashboardEvidence {
    pub startup: JsonFields,
    pub mechanics: JsonFields,
    pub environment: TrueMatrix,
    pub command: TrueCommandBehaviorMatrix,
    pub legacy_command_binding_parity: JsonFields,
    pub spells: TrueMatrix,
    pub items: TrueMatrix,
    pub combat: TrueMatrix,
    pub site: TrueMatrix,
    pub progression: TrueMatrix,
    pub compatibility: TrueMatrix,
    pub frontend: TrueMatrix,
    pub frontend_strict: JsonFields,
    pub replay_dashboard: JsonFields,
    pub guild_live_check: JsonFields,
    pub service_branch_blackbox: JsonFields,
    pub site_branch_diff: JsonFields,
    pub parity_certify: JsonFields,
    pub classic_mode_drift_guard: JsonFields,
    pub classic_objective_drift_guard: JsonFields,
    pub modern_mode_smoke: JsonFields,
    pub modern_bevy_visual_smoke: JsonFields,
    pub modern_objective_blackbox_smoke: JsonFields,
    pub bevy_visual_blackbox_suite: JsonFields,
    pub dual_mode_blackbox_suite: JsonFields,
    pub mode_artifact_integrity_guard: JsonFields,
    pub classic_visual_drift_guard: JsonFields,
    pub bevy_semantic_projection_parity: JsonFields,
}

/// The components of the regression dashboard, in order.
pub open spec fn spec_dashboard_components(d: DashboardEvidence) -> Seq<ComponentView> {
    seq![
        spec_startup_component(d.startup),
        spec_mechanics_component(d.mechanics),
        spec_matrix_component("environment"@, d.environment),
        spec_command_component(d.command),
        spec_report_component("legacy_command_binding_parity"@, d.legacy_command_binding_parity),
        spec_matrix_component("spells"@, d.spells),
        spec_matrix_component("items"@, d.items),
        spec_matrix_component("combat"@, d.combat),
        spec_matrix_component("site"@, d.site),
        spec_matrix_component("progression"@, d.progression),
        spec_matrix_component("compatibility"@, d.compatibility),
        spec_matrix_component("frontend"@, d.frontend),
        spec_report_component("frontend_workflow_strict"@, d.frontend_strict),
        spec_replay_component(d.replay_dashboard),
        spec_report_component("guild_live_check"@, d.guild_live_check),
        spec_report_component("service_branch_blackbox"@, d.service_branch_blackbox),
        spec_report_component("site_branch_diff"@, d.site_branch_diff),
        spec_report_component("parity_certify"@, d.parity_certify),
        spec_report_component("classic_mode_drift_guard"@, d.classic_mode_drift_guard),
        spec_report_component("classic_objective_drift_guard"@, d.classic_objective_drift_guard),
        spec_report_component("modern_mode_smoke"@, d.modern_mode_smoke),
        spec_report_component("modern_bevy_visual_smoke"@, d.modern_bevy_visual_smoke),
        spec_report_component("modern_objective_blackbox_smoke"@, d.modern_objective_blackbox_smoke),
        spec_report_component("bevy_visual_blackbox_suite"@, d.bevy_visual_blackbox_suite),
        spec_report_component("dual_mode_blackbox_suite"@, d.dual_mode_blackbox_suite),
        spec_report_component("mode_artifact_integrity_guard"@, d.mode_artifact_integrity_guard),
        spec_report_component("classic_visual_drift_guard"@, d.classic_visual_drift_guard),
        spec_report_component("bevy_semantic_projection_parity"@, d.bevy_semantic_projection_parity),
    ]
}

fn push_component(out: &mut Vec<DashboardComponent>, c: DashboardComponent)
    ensures
        component_views(final(out)@) == component_views(old(out)@).push(component_views(seq![c])[0]),
{
    let ghost before = component_views(out@);
    let ghost cv = component_views(seq![c])[0];
    out.push(c);
    assert(component_views(out@) =~= before.push(cv));
}

/// The components of the regression dashboard.
pub fn dashboard_components(d: &DashboardEvidence) -> (r: Vec<DashboardComponent>)
    ensures
        component_views(r@) == spec_dashboard_components(*d),
{
    let ghost target = spec_dashboard_components(*d);
    let mut out: Vec<DashboardComponent> = Vec::new();
    push_component(&mut out, startup_component(&d.startup));
    assert(component_views(out@) =~= target.take(1));
    push_component(&mut out, mechanics_component(&d.mechanics));
    assert(component_views(out@) =~= target.take(2));
    push_component(&mut out, matrix_component("environment", &d.environment));
    assert(component_views(out@) =~= target.take(3));
    push_component(&mut out, command_component(&d.command));
    assert(component_views(out@) =~= target.take(4));
    push_component(&mut out, report_component("legacy_command_binding_parity", &d.legacy_command_binding_parity));
    assert(component_views(out@) =~= target.take(5));
    push_component(&mut out, matrix_component("spells", &d.spells));
    assert(component_views(out@) =~= target.take(6));
    push_component(&mut out, matrix_component("items", &d.items));
    assert(component_views(out@) =~= target.take(7));
    push_component(&mut out, matrix_component("combat", &d.combat));
    assert(component_views(out@) =~= target.take(8));
    push_component(&mut out, matrix_component("site", &d.site));
    assert(component_views(out@) =~= target.take(9));
    push_component(&mut out, matrix_component("progression", &d.progression));
    assert(component_views(out@) =~= target.take(10));
    push_component(&mut out, matrix_component("compatibility", &d.compatibility));
    assert(component_views(out@) =~= target.take(11));
    push_component(&mut out, matrix_component("frontend", &d.frontend));
    assert(component_views(out@) =~= target.take(12));
    push_component(&mut out, report_component("frontend_workflow_strict", &d.frontend_strict));
    assert(component_views(out@) =~= target.take(13));
    push_component(&mut out, replay_component(&d.replay_dashboard));
    assert(component_views(out@) =~= target.take(14));
    push_component(&mut out, report_component("guild_live_check", &d.guild_live_check));
    assert(component_views(out@) =~= target.take(15));
    push_component(&mut out, report_component("service_branch_blackbox", &d.service_branch_blackbox));
    assert(component_views(out@) =~= target.take(16));
    push_component(&mut out, report_component("site_branch_diff", &d.site_branch_diff));
    assert(component_views(out@) =~= target.take(17));
    push_component(&mut out, report_component("parity_certify", &d.parity_certify));
    assert(component_views(out@) =~= target.take(18));
    push_component(&mut out, report_component("classic_mode_drift_guard", &d.classic_mode_drift_guard));
    assert(component_views(out@) =~= target.take(19));
    push_component(&mut out, report_component("classic_objective_drift_guard", &d.classic_objective_drift_guard));
    assert(component_views(out@) =~= target.take(20));
    push_component(&mut out, report_component("modern_mode_smoke", &d.modern_mode_smoke));
    assert(component_views(out@) =~= target.take(21));
    push_component(&mut out, report_component("modern_bevy_visual_smoke", &d.modern_bevy_visual_smoke));
    assert(component_views(out@) =~= target.take(22));
    push_component(&mut out, report_component("modern_objective_blackbox_smoke", &d.modern_objective_blackbox_smoke));
    assert(component_views(out@) =~= target.take(23));
    push_component(&mut out, report_component("bevy_visual_blackbox_suite", &d.bevy_visual_blackbox_suite));
    assert(component_views(out@) =~= target.take(24));
    push_component(&mut out, report_component("dual_mode_blackbox_suite", &d.dual_mode_blackbox_suite));
    assert(component_views(out@) =~= target.take(25));
    push_component(&mut out, report_component("mode_artifact_integrity_guard", &d.mode_artifact_integrity_guard));
    assert(component_views(out@) =~= target.take(26));
    push_component(&mut out, report_component("classic_visual_drift_guard", &d.classic_visual_drift_guard));
    assert(component_views(out@) =~= target.take(27));
    push_component(&mut out, report_component("bevy_semantic_projection_parity", &d.bevy_semantic_projection_parity));
    assert(component_views(out@) =~= target.take(28));
    assert(target.take(28) =~= target);
    out
}

#[derive(Debug, Clone)]
pub struct TrueParityRegressionDashboard {
    pub generated_at_utc: String,
    pub total: usize,
    pub passed: usize,
    pub failed: usize,
    pub status: String,
    pub components: Vec<DashboardComponent>,
}

/// Number of components that pass.
pub open spec fn spec_components_passed(cs: Seq<ComponentView>) -> nat
    decreases cs.len(),
{
    if cs.len() == 0 {
        0
    } else {
        spec_components_passed(cs.drop_last()) + if cs.last().pass {
            1nat
        } else {
            0nat
        }
    }
}

proof fn lemma_components_passed_le(cs: Seq<ComponentView>)
    ensures
        spec_components_passed(cs) <= cs.len(),
    decreases cs.len(),
{
    if cs.len() > 0 {
        lemma_components_passed_le(cs.drop_last());
    }
}

/// `PASS` when nothing failed, `FAIL` otherwise.
pub open spec fn spec_status_text(failed: nat) -> Seq<char> {
    if failed == 0 {
        "PASS"@
    } else {
        "FAIL"@
    }
}

fn status_text(failed: usize) -> (r: String)
    ensures
        r@ == spec_status_text(failed as nat),
{
    if failed == 0 {
        string_of(&chars_of("PASS"))
    } else {
        string_of(&chars_of("FAIL"))
    }
}

/// `r` sums up the components: it keeps them, counts them and those that
/// pass, and its status is `PASS` when none failed.
pub open spec fn is_dashboard_of_components(r: TrueParityRegressionDashboard, cs: Seq<ComponentView>) -> bool {
    &&& component_views(r.components@) == cs
    &&& r.total == cs.len()
    &&& r.passed == spec_components_passed(cs)
    &&& r.failed == r.total - r.passed
    &&& r.status@ == spec_status_text(r.failed as nat)
}

fn dashboard_of_components(components: Vec<DashboardComponent>, generated_at_utc: String) -> (r: TrueParityRegressionDashboard)
    ensures
        is_dashboard_of_components(r, component_views(components@)),
        r.generated_at_utc@ == generated_at_utc@,
{
    let ghost cs = component_views(components@);
    let mut passed: usize = 0;
    let mut i: usize = 0;
    while i < components.len()
        invariant
            i <= components.len(),
            cs == component_views(components@),
            passed == spec_components_passed(cs.take(i as int)),
        decreases components.len() - i,
    {
        assert(cs.take(i + 1).drop_last() =~= cs.take(i as int));
        proof {
            lemma_components_passed_le(cs.take(i as int));
        }
        if components[i].pass {
            passed = passed + 1;
        }
        i = i + 1;
    }
    assert(cs.take(components.len() as int) =~= cs);
    proof {
        lemma_components_passed_le(cs);
    }
    let total = components.len();
    let failed = total - passed;
    TrueParityRegressionDashboard {
        generated_at_utc,
        total,
        passed,
        failed,
        status: status_text(failed),
        components,
    }
}

/// The regression dashboard over every parity component, stamped
/// `generated_at_utc`.
pub fn regression_dashboard_at(d: &DashboardEvidence, generated_at_utc: String) -> (r: TrueParityRegressionDashboard)
    ensures
        is_dashboard_of_components(r, spec_dashboard_components(*d)),
        r.generated_at_utc@ == generated_at_utc@,
{
    let components = dashboard_components(d);
    dashboard_of_components(components, generated_at_utc)
}

/// The regression dashboard, stamped with the current time.
pub fn build_regression_dashboard(d: &DashboardEvidence) -> (r: TrueParityRegressionDashboard)
    ensures
        is_dashboard_of_components(r, spec_dashboard_components(*d)),
        exists|secs: u64| r.generated_at_utc@ == spec_unix_stamp(secs as nat),
{
    let stamp = now_utc_unix();
    regression_dashboard_at(d, stamp)
}

// ---------------------------------------------------------------------------
// Burn-in window
// ---------------------------------------------------------------------------

#[derive(Debug, Clone)]
pub struct TrueBurninWindow {
    pub generated_at_utc: String,
    pub required_runs_per_fixture: u64,
    pub determinism_total_runs: u64,
    pub replay_total_scenarios: u64,
    pub replay_failed_scenarios: u64,
    pub determinism_divergent_runs: u64,
    pub pass: bool,
    pub blockers: Vec<String>,
}

/// Fewer runs per fixture than this leave the burn-in window open.
pub const BURNIN_MIN_RUNS_PER_FIXTURE: u64 = 20;

/// A count of the determinism report, 0 without a report.
pub open spec fn spec_determinism_count(det: Option<JsonFields>, key: Seq<char>) -> nat {
    match det {
        Some(f) => spec_count_field(f, key),
        None => 0,
    }
}

fn determinism_count(det: &Option<JsonFields>, key: &str) -> (r: u64)
    ensures
        r == spec_determinism_count(*det, key@),
{
    match det {
        Some(f) => usize_field(f, key),
        None => 0,
    }
}

/// What keeps the burn-in window from closing, in order: a missing
/// determinism report, too few runs per fixture, divergent runs and failed
/// replays.
pub open spec fn spec_burnin_blockers(det: Option<JsonFields>, replay: JsonFields) -> Seq<Seq<char>> {
    let required = spec_determinism_count(det, "required_runs_per_fixture"@);
    let divergent = spec_determinism_count(det, "divergent_runs"@);
    let failed = spec_replay_active_failed(replay);
    (if det is None { seq!["missing ws-d determinism report"@] } else { Seq::empty() })
        + (if required < 20 { seq!["required_runs_per_fixture="@ + spec_dec(required) + " below 20"@] } else { Seq::empty() })
        + (if divergent > 0 { seq!["determinism divergences="@ + spec_dec(divergent)] } else { Seq::empty() })
        + (if failed > 0 { seq!["frontend replay failures="@ + spec_dec(failed)] } else { Seq::empty() })
}

pub open spec fn blockers_view(v: Seq<String>) -> Seq<Seq<char>> {
    Seq::new(v.len(), |i: int| v[i]@)
}

fn push_blocker(out: &mut Vec<String>, text: Vec<char>)
    ensures
        blockers_view(final(out)@) == blockers_view(old(out)@).push(text@),
{
    let ghost before = blockers_view(out@);
    out.push(string_of(&text));
    assert(blockers_view(out@) =~= before.push(text@));
}

/// The burn-in window, given the determinism report (`None` where there is
/// none) and the replay dashboard, stamped `generated_at_utc`.
pub fn burnin_window_at(det: &Option<JsonFields>, replay: &JsonFields, generated_at_utc: String) -> (r: TrueBurninWindow)
    ensures
        r.required_runs_per_fixture == spec_determinism_count(*det, "required_runs_per_fixture"@),
        r.determinism_total_runs == spec_determinism_count(*det, "total_runs"@),
        r.determinism_divergent_runs == spec_determinism_count(*det, "divergent_runs"@),
        r.replay_total_scenarios == spec_replay_active_total(*replay),
        r.replay_failed_scenarios == spec_replay_active_failed(*replay),
        blockers_view(r.blockers@) == spec_burnin_blockers(*det, *replay),
        r.pass == (r.blockers.len() == 0),
        r.generated_at_utc@ == generated_at_utc@,
{
    let required = determinism_count(det, "required_runs_per_fixture");
    let total_runs = determinism_count(det, "total_runs");
    let divergent = determinism_count(det, "divergent_runs");
    let replay_total = replay_active_total(replay);
    let replay_failed = replay_active_failed(replay);
    let mut blockers: Vec<String> = Vec::new();
    let ghost b0 = blockers_view(blockers@);
    if det.is_none() {
        push_blocker(&mut blockers, chars_of("missing ws-d determinism report"));
    }
    let ghost b1 = blockers_view(blockers@);
    if required < BURNIN_MIN_RUNS_PER_FIXTURE {
        let mut t = chars_of("required_runs_per_fixture=");
        push_dec(&mut t, required);
        extend_str(&mut t, " below 20");
        push_blocker(&mut blockers, t);
    }
    let ghost b2 = blockers_view(blockers@);
    if divergent > 0 {
        let mut t = chars_of("determinism divergences=");
        push_dec(&mut t, divergent);
        push_blocker(&mut blockers, t);
    }
    let ghost b3 = blockers_view(blockers@);
    if replay_failed > 0 {
        let mut t = chars_of("frontend replay failures=");
        push_dec(&mut t, replay_failed);
        push_blocker(&mut blockers, t);
    }
    let ghost b4 = blockers_view(blockers@);
    proof {
        let required_n = spec_determinism_count(*det, "required_runs_per_fixture"@);
        let divergent_n = spec_determinism_count(*det, "divergent_runs"@);
        let failed_n = spec_replay_active_failed(*replay);
        let p0: Seq<Seq<char>> = if det is None { seq!["missing ws-d determinism report"@] } else { Seq::empty() };
        let p1: Seq<Seq<char>> = if required_n < 20 { seq!["required_runs_per_fixture="@ + spec_dec(required_n) + " below 20"@] } else { Seq::empty() };
        let p2: Seq<Seq<char>> = if divergent_n > 0 { seq!["determinism divergences="@ + spec_dec(divergent_n)] } else { Seq::empty() };
        let p3: Seq<Seq<char>> = if failed_n > 0 { seq!["frontend replay failures="@ + spec_dec(failed_n)] } else { Seq::empty() };
        assert(b1 =~= p0);
        assert(b2 =~= p0 + p1);
        assert(b3 =~= p0 + p1 + p2);
        assert(b4 =~= p0 + p1 + p2 + p3);
    }
    let pass = blockers.len() == 0;
    TrueBurninWindow {
        generated_at_utc,
        required_runs_per_fixture: required,
        determinism_total_runs: total_runs,
        replay_total_scenarios: replay_total,
        replay_failed_scenarios: replay_failed,
        determinism_divergent_runs: divergent,
        pass,
        blockers,
    }
}

/// The burn-in window, stamped with the current time.
pub fn build_burnin_window(det: &Option<JsonFields>, replay: &JsonFields) -> (r: TrueBurninWindow)
    ensures
        r.required_runs_per_fixture == spec_determinism_count(*det, "required_runs_per_fixture"@),
        r.determinism_total_runs == spec_determinism_count(*det, "total_runs"@),
        r.determinism_divergent_runs == spec_determinism_count(*det, "divergent_runs"@),
        r.replay_total_scenarios == spec_replay_active_total(*replay),
        r.replay_failed_scenarios == spec_replay_active_failed(*replay),
        blockers_view(r.blockers@) == spec_burnin_blockers(*det, *replay),
        r.pass == (r.blockers.len() == 0),
        exists|secs: u64| r.generated_at_utc@ == spec_unix_stamp(secs as nat),
{
    let stamp = now_utc_unix();
    burnin_window_at(det, replay, stamp)
}

// ---------------------------------------------------------------------------
// Deviation ledger of the tracks
// ---------------------------------------------------------------------------

/// `matrix=<passed>/<total> strict=<passed>/<total>`.
pub open spec fn spec_frontend_details(m: TrueMatrix, strict: JsonFields) -> Seq<char> {
    "matrix="@ + spec_dec(m.passed as nat) + "/"@ + spec_dec(m.total as nat) + " strict="@ + spec_dec(
        spec_count_field(strict, "passed"@),
    ) + "/"@ + spec_dec(spec_count_field(strict, "total"@))
}

fn frontend_details(m: &TrueMatrix, strict: &JsonFields) -> (r: String)
    ensures
        r@ == spec_frontend_details(*m, *strict),
{
    let mut out = chars_of("matrix=");
    push_dec(&mut out, m.passed as u64);
    extend_str(&mut out, "/");
    push_dec(&mut out, m.total as u64);
    extend_str(&mut out, " strict=");
    push_dec(&mut out, usize_field(strict, "passed"));
    extend_str(&mut out, "/");
    push_dec(&mut out, usize_field(strict, "total"));
    string_of(&out)
}

/// `dashboard=<status> burnin=<pass>`.
pub open spec fn spec_hardening_details(dash: TrueParityRegressionDashboard, burnin: TrueBurninWindow) -> Seq<char> {
    "dashboard="@ + dash.status@ + " burnin="@ + spec_bool_text(burnin.pass)
}

fn hardening_details(dash: &TrueParityRegressionDashboard, burnin: &TrueBurninWindow) -> (r: String)
    ensures
        r@ == spec_hardening_details(*dash, *burnin),
{
    let mut out = chars_of("dashboard=");
    extend_str(&mut out, dash.status.as_str());
    extend_str(&mut out, " burnin=");
    push_bool(&mut out, burnin.pass);
    string_of(&out)
}

fn hardening_pass(dash: &TrueParityRegressionDashboard, burnin: &TrueBurninWindow) -> (r: bool)
    ensures
        r == (dash.status@ == "PASS"@ && burnin.pass),
{
    let st = chars_of(dash.status.as_str());
    crate::text::chars_eq_str(&st, "PASS") && burnin.pass
}

/// The deviation items of the tracks, T1 to T12, each closed when its
/// evidence passes.
pub open spec fn spec_refresh_deviations(
    d: DashboardEvidence,
    dash: TrueParityRegressionDashboard,
    burnin: TrueBurninWindow,
) -> Seq<DeviationView> {
    seq![
        spec_deviation("T1"@, "P0"@, "Mechanics denominator parity"@, spec_mechanics_details(d.mechanics), spec_mechanics_pass(d.mechanics)),
        spec_deviation("T2"@, "P0"@, "Environment parity"@, spec_passed_details(d.environment.passed as nat, d.environment.total as nat), d.environment.pass),
        spec_deviation("T3"@, "P0"@, "Command parity"@, spec_command_details(d.command), d.command.pass),
        spec_deviation("T4"@, "P0"@, "Spell parity"@, spec_passed_details(d.spells.passed as nat, d.spells.total as nat), d.spells.pass),
        spec_deviation("T5"@, "P0"@, "Item parity"@, spec_passed_details(d.items.passed as nat, d.items.total as nat), d.items.pass),
        spec_deviation("T6"@, "P0"@, "Combat parity"@, spec_passed_details(d.combat.passed as nat, d.combat.total as nat), d.combat.pass),
        spec_deviation("T7"@, "P0"@, "Site parity"@, spec_passed_details(d.site.passed as nat, d.site.total as nat), d.site.pass),
        spec_deviation("T8"@, "P1"@, "Progression parity"@, spec_passed_details(d.progression.passed as nat, d.progression.total as nat), d.progression.pass),
        spec_deviation("T9"@, "P1"@, "Compatibility parity"@, spec_passed_details(d.compatibility.passed as nat, d.compatibility.total as nat), d.compatibility.pass),
        spec_deviation("T10"@, "P1"@, "Frontend parity"@, spec_frontend_details(d.frontend, d.frontend_strict), d.frontend.pass && spec_pass_field(d.frontend_strict)),
        spec_deviation("T11"@, "P1"@, "Replay active denominator parity"@, spec_replay_details(d.replay_dashboard), spec_replay_active_failed(d.replay_dashboard) == 0),
        spec_deviation("T12"@, "P1"@, "Verification hardening"@, spec_hardening_details(dash, burnin), dash.status@ == "PASS"@ && burnin.pass),
    ]
}

fn push_deviation(out: &mut Vec<DeviationItem>, item: DeviationItem)
    ensures
        deviation_views(final(out)@) == deviation_views(old(out)@).push(item@),
{
    let ghost before = deviation_views(out@);
    out.push(item);
    assert(deviation_views(out@) =~= before.push(item@));
}

/// The deviation items of the tracks.
#[verifier::spinoff_prover]
#[verifier::rlimit(60)]
pub fn refresh_deviations(
    d: &DashboardEvidence,
    dash: &TrueParityRegressionDashboard,
    burnin: &TrueBurninWindow,
) -> (r: Vec<DeviationItem>)
    ensures
        deviation_views(r@) == spec_refresh_deviations(*d, *dash, *burnin),
{
    let ghost target = spec_refresh_deviations(*d, *dash, *burnin);
    let mut out: Vec<DeviationItem> = Vec::new();
    let details = mechanics_details(&d.mechanics);
    push_deviation(&mut out, deviation("T1", "P0", "Mechanics denominator parity", details.as_str(), mechanics_pass(&d.mechanics)));
    assert(deviation_views(out@) =~= target.take(1));
    let details = passed_details(d.environment.passed as u64, d.environment.total as u64);
    push_deviation(&mut out, deviation("T2", "P0", "Environment parity", details.as_str(), d.environment.pass));
    assert(deviation_views(out@) =~= target.take(2));
    let details = command_details(&d.command);
    push_deviation(&mut out, deviation("T3", "P0", "Command parity", details.as_str(), d.command.pass));
    assert(deviation_views(out@) =~= target.take(3));
    let details = passed_details(d.spells.passed as u64, d.spells.total as u64);
    push_deviation(&mut out, deviation("T4", "P0", "Spell parity", details.as_str(), d.spells.pass));
    assert(deviation_views(out@) =~= target.take(4));
    let details = passed_details(d.items.passed as u64, d.items.total as u64);
    push_deviation(&mut out, deviation("T5", "P0", "Item parity", details.as_str(), d.items.pass));
    assert(deviation_views(out@) =~= target.take(5));
    let details = passed_details(d.combat.passed as u64, d.combat.total as u64);
    push_deviation(&mut out, deviation("T6", "P0", "Combat parity", details.as_str(), d.combat.pass));
    assert(deviation_views(out@) =~= target.take(6));
    let details = passed_details(d.site.passed as u64, d.site.total as u64);
    push_deviation(&mut out, deviation("T7", "P0", "Site parity", details.as_str(), d.site.pass));
    assert(deviation_views(out@) =~= target.take(7));
    let details = passed_details(d.progression.passed as u64, d.progression.total as u64);
    push_deviation(&mut out, deviation("T8", "P1", "Progression parity", details.as_str(), d.progression.pass));
    assert(deviation_views(out@) =~= target.take(8));
    let details = passed_details(d.compatibility.passed as u64, d.compatibility.total as u64);
    push_deviation(&mut out, deviation("T9", "P1", "Compatibility parity", details.as_str(), d.compatibility.pass));
    assert(deviation_views(out@) =~= target.take(9));
    let details = frontend_details(&d.frontend, &d.frontend_strict);
    push_deviation(&mut out, deviation("T10", "P1", "Frontend parity", details.as_str(), d.frontend.pass && pass_field(&d.frontend_strict)));
    assert(deviation_views(out@) =~= target.take(10));
    let details = replay_details(&d.replay_dashboard);
    push_deviation(&mut out, deviation("T11", "P1", "Replay active denominator parity", details.as_str(), replay_active_failed(&d.replay_dashboard) == 0));
    assert(deviation_views(out@) =~= target.take(11));
    let details = hardening_details(dash, burnin);
    push_deviation(&mut out, deviation("T12", "P1", "Verification hardening", details.as_str(), hardening_pass(dash, burnin)));
    assert(deviation_views(out@) =~= target.take(12));
    assert(target.take(12) =~= target);
    out
}

/// The deviation ledger of the tracks, stamped with the current time.
pub fn build_deviation_ledger(
    d: &DashboardEvidence,
    dash: &TrueParityRegressionDashboard,
    burnin: &TrueBurninWindow,
) -> (r: DeviationLedger)
    ensures
        is_deviation_ledger_of(r, spec_refresh_deviations(*d, *dash, *burnin)),
        exists|secs: u64| r.generated_at_utc@ == spec_unix_stamp(secs as nat),
{
    let items = refresh_deviations(d, dash, burnin);
    let stamp = now_utc_unix();
    ledger_from_items_at(items, stamp)
}

// ---------------------------------------------------------------------------
// Baseline freeze
// ---------------------------------------------------------------------------

/// FNV-1a, 64 bits: from the offset basis, each byte is folded in by
/// exclusive or and a wrapping multiplication by the FNV prime.
pub open spec fn spec_fnv1a64(bs: Seq<u8>) -> u64
    decreases bs.len(),
{
    if bs.len() == 0 {
        0xcbf29ce484222325u64
    } else {
        let h = spec_fnv1a64(bs.drop_last()) ^ (bs.last() as u64);
        ((h as nat * 0x100000001b3nat) % 0x1_0000_0000_0000_0000nat) as u64
    }
}

pub fn fnv1a64(bytes: &[u8]) -> (r: u64)
    ensures
        r == spec_fnv1a64(bytes@),
{
    let mut hash: u64 = 0xcbf29ce484222325u64;
    let mut i: usize = 0;
    while i < bytes.len()
        invariant
            i <= bytes.len(),
            hash == spec_fnv1a64(bytes@.take(i as int)),
        decreases bytes.len() - i,
    {
        assert(bytes@.take(i + 1).drop_last() =~= bytes@.take(i as int));
        hash = hash ^ (bytes[i] as u64);
        hash = hash.wrapping_mul(0x100000001b3u64);
        i = i + 1;
    }
    assert(bytes@.take(bytes.len() as int) =~= bytes@);
    hash
}

/// The artifacts that a baseline freeze records.
pub open spec fn spec_baseline_required_artifacts() -> Seq<Seq<char>> {
    seq![
        "target/true-parity-deviations.json"@,
        "target/true-startup-parity.json"@,
        "target/true-environment-transition-matrix.json"@,
        "target/true-command-behavior-matrix.json"@,
        "target/true-spell-parity-matrix.json"@,
        "target/true-item-parity-matrix.json"@,
        "target/true-combat-encounter-matrix.json"@,
        "target/true-site-economy-social-matrix.json"@,
        "target/true-progression-ending-matrix.json"@,
        "target/true-compatibility-matrix.json"@,
        "target/true-frontend-workflow-matrix.json"@,
        "target/classic-frontend-workflow-parity.json"@,
        "target/ws-d-regression-dashboard.json"@,
        "target/service-branch-blackbox-smoke.json"@,
        "target/classic/classic-mode-drift-guard.json"@,
        "target/classic/classic-objective-drift-guard.json"@,
        "target/modern/modern-mode-smoke.json"@,
        "target/modern/modern-objective-blackbox-smoke.json"@,
        "target/dual/dual-mode-blackbox-suite.json"@,
        "target/mode-artifact-integrity-guard.json"@,
        "target/runtime-user-regression-smoke.json"@,
        "target/legacy-site-branch-contract.json"@,
        "target/rust-site-branch-contract.json"@,
        "target/site-branch-diff.json"@,
        "target/guild-service-talk-clarity.json"@,
        "target/guild-live-check.json"@,
        "target/guild-parity-defect-board.json"@,
        "target/certification/baseline.json"@,
        "target/certification/contracts/legacy-mechanics-ledger.json"@,
        "target/certification/contracts/rust-mechanics-ledger.json"@,
        "target/certification/contracts/mechanics_mapping.json"@,
        "target/certification/diff/legacy-headless-replay.json"@,
        "target/certification/diff/rust-headless-replay.json"@,
        "target/certification/diff/mechanics-differential.json"@,
        "target/certification/diff/service-branch-differential.json"@,
        "target/certification/coverage/branch-coverage.json"@,
        "target/certification/smoke/blackbox-adversarial.json"@,
        "target/certification/defect-board.json"@,
        "target/certification/parity-certify.json"@,
        "target/mechanics-audit-baseline.json"@,
        "target/legacy-mechanics-ledger.json"@,
        "target/rust-mechanics-ledger.json"@,
        "target/mechanics-parity-matrix.json"@,
        "target/mechanics-missing-defect-board.json"@,
        "target/mechanics-smoke.json"@,
        "target/true-parity-regression-dashboard.json"@,
        "target/true-burnin-window.json"@,
        "docs/migration/FULL_OMEGA_TRUE_PARITY_PLAN.md"@,
        "docs/migration/FULL_OMEGA_TRUE_PARITY_SCORECARD.md"@,
        "docs/migration/FULL_OMEGA_TRUE_PARITY_CLOSURE_REVIEW.md"@,
        "docs/migration/MECHANICS_PARITY_MAPPING.yaml"@,
        "docs/migration/FULL_MECHANICS_PARITY_AUDIT_V2.md"@,
        "docs/migration/ALL_GUILDS_PARITY_CLOSURE_REPORT.md"@,
        "docs/migration/FULL_SOURCE_EXHAUSTIVE_PARITY_CERTIFICATION.md"@,
        "docs/migration/DUAL_MODE_ARCHITECTURE.md"@,
        "docs/migration/CLASSIC_FREEZE_CONTRACT.md"@,
        "docs/migration/DUAL_MODE_PARITY_CERTIFICATION.md"@,
        "docs/migration/MODERN_SLICE_01_OBJECTIVE_JOURNAL.md"@,
    ]
}

pub open spec fn paths_view(v: Seq<String>) -> Seq<Seq<char>> {
    Seq::new(v.len(), |i: int| v[i]@)
}

fn push_path(out: &mut Vec<String>, p: &str)
    ensures
        paths_view(final(out)@) == paths_view(old(out)@).push(p@),
{
    let ghost before = paths_view(out@);
    out.push(string_of(&chars_of(p)));
    assert(paths_view(out@) =~= before.push(p@));
}

/// The artifacts that a baseline freeze records, in order.
pub fn baseline_required_artifacts() -> (r: Vec<String>)
    ensures
        paths_view(r@) == spec_baseline_required_artifacts(),
{
    let mut out: Vec<String> = Vec::new();
    let ghost target = spec_baseline_required_artifacts();
    push_path(&mut out, "target/true-parity-deviations.json");
    assert(paths_view(out@) =~= target.take(1));
    push_path(&mut out, "target/true-startup-parity.json");
    assert(paths_view(out@) =~= target.take(2));
    push_path(&mut out, "target/true-environment-transition-matrix.json");
    assert(paths_view(out@) =~= target.take(3));
    push_path(&mut out, "target/true-command-behavior-matrix.json");
    assert(paths_view(out@) =~= target.take(4));
    push_path(&mut out, "target/true-spell-parity-matrix.json");
    assert(paths_view(out@) =~= target.take(5));
    push_path(&mut out, "target/true-item-parity-matrix.json");
    assert(paths_view(out@) =~= target.take(6));
    push_path(&mut out, "target/true-combat-encounter-matrix.json");
    assert(paths_view(out@) =~= target.take(7));
    push_path(&mut out, "target/true-site-economy-social-matrix.json");
    assert(paths_view(out@) =~= target.take(8));
    push_path(&mut out, "target/true-progression-ending-matrix.json");
    assert(paths_view(out@) =~= target.take(9));
    push_path(&mut out, "target/true-compatibility-matrix.json");
    assert(paths_view(out@) =~= target.take(10));
    push_path(&mut out, "target/true-frontend-workflow-matrix.json");
    assert(paths_view(out@) =~= target.take(11));
    push_path(&mut out, "target/classic-frontend-workflow-parity.json");
    assert(paths_view(out@) =~= target.take(12));
    push_path(&mut out, "target/ws-d-regression-dashboard.json");
    assert(paths_view(out@) =~= target.take(13));
    push_path(&mut out, "target/service-branch-blackbox-smoke.json");
    assert(paths_view(out@) =~= target.take(14));
    push_path(&mut out, "target/classic/classic-mode-drift-guard.json");
    assert(paths_view(out@) =~= target.take(15));
    push_path(&mut out, "target/classic/classic-objective-drift-guard.json");
    assert(paths_view(out@) =~= target.take(16));
    push_path(&mut out, "target/modern/modern-mode-smoke.json");
    assert(paths_view(out@) =~= target.take(17));
    push_path(&mut out, "target/modern/modern-objective-blackbox-smoke.json");
    assert(paths_view(out@) =~= target.take(18));
    push_path(&mut out, "target/dual/dual-mode-blackbox-suite.json");
    assert(paths_view(out@) =~= target.take(19));
    push_path(&mut out, "target/mode-artifact-integrity-guard.json");
    assert(paths_view(out@) =~= target.take(20));
    push_path(&mut out, "target/runtime-user-regression-smoke.json");
    assert(paths_view(out@) =~= target.take(21));
    push_path(&mut out, "target/legacy-site-branch-contract.json");
    assert(paths_view(out@) =~= target.take(22));
    push_path(&mut out, "target/rust-site-branch-contract.json");
    assert(paths_view(out@) =~= target.take(23));
    push_path(&mut out, "target/site-branch-diff.json");
    assert(paths_view(out@) =~= target.take(24));
    push_path(&mut out, "target/guild-service-talk-clarity.json");
    assert(paths_view(out@) =~= target.take(25));
    push_path(&mut out, "target/guild-live-check.json");
    assert(paths_view(out@) =~= target.take(26));
    push_path(&mut out, "target/guild-parity-defect-board.json");
    assert(paths_view(out@) =~= target.take(27));
    push_path(&mut out, "target/certification/baseline.json");
    assert(paths_view(out@) =~= target.take(28));
    push_path(&mut out, "target/certification/contracts/legacy-mechanics-ledger.json");
    assert(paths_view(out@) =~= target.take(29));
    push_path(&mut out, "target/certification/contracts/rust-mechanics-ledger.json");
    assert(paths_view(out@) =~= target.take(30));
    push_path(&mut out, "target/certification/contracts/mechanics_mapping.json");
    assert(paths_view(out@) =~= target.take(31));
    push_path(&mut out, "target/certification/diff/legacy-headless-replay.json");
    assert(paths_view(out@) =~= target.take(32));
    push_path(&mut out, "target/certification/diff/rust-headless-replay.json");
    assert(paths_view(out@) =~= target.take(33));
    push_path(&mut out, "target/certification/diff/mechanics-differential.json");
    assert(paths_view(out@) =~= target.take(34));
    push_path(&mut out, "target/certification/diff/service-branch-differential.json");
    assert(paths_view(out@) =~= target.take(35));
    push_path(&mut out, "target/certification/coverage/branch-coverage.json");
    assert(paths_view(out@) =~= target.take(36));
    push_path(&mut out, "target/certification/smoke/blackbox-adversarial.json");
    assert(paths_view(out@) =~= target.take(37));
    push_path(&mut out, "target/certification/defect-board.json");
    assert(paths_view(out@) =~= target.take(38));
    push_path(&mut out, "target/certification/parity-certify.json");
    assert(paths_view(out@) =~= target.take(39));
    push_path(&mut out, "target/mechanics-audit-baseline.json");
    assert(paths_view(out@) =~= target.take(40));
    push_path(&mut out, "target/legacy-mechanics-ledger.json");
    assert(paths_view(out@) =~= target.take(41));
    push_path(&mut out, "target/rust-mechanics-ledger.json");
    assert(paths_view(out@) =~= target.take(42));
    push_path(&mut out, "target/mechanics-parity-matrix.json");
    assert(paths_view(out@) =~= target.take(43));
    push_path(&mut out, "target/mechanics-missing-defect-board.json");
    assert(paths_view(out@) =~= target.take(44));
    push_path(&mut out, "target/mechanics-smoke.json");
    assert(paths_view(out@) =~= target.take(45));
    push_path(&mut out, "target/true-parity-regression-dashboard.json");
    assert(paths_view(out@) =~= target.take(46));
    push_path(&mut out, "target/true-burnin-window.json");
    assert(paths_view(out@) =~= target.take(47));
    push_path(&mut out, "docs/migration/FULL_OMEGA_TRUE_PARITY_PLAN.md");
    assert(paths_view(out@) =~= target.take(48));
    push_path(&mut out, "docs/migration/FULL_OMEGA_TRUE_PARITY_SCORECARD.md");
    assert(paths_view(out@) =~= target.take(49));
    push_path(&mut out, "docs/migration/FULL_OMEGA_TRUE_PARITY_CLOSURE_REVIEW.md");
    assert(paths_view(out@) =~= target.take(50));
    push_path(&mut out, "docs/migration/MECHANICS_PARITY_MAPPING.yaml");
    assert(paths_view(out@) =~= target.take(51));
    push_path(&mut out, "docs/migration/FULL_MECHANICS_PARITY_AUDIT_V2.md");
    assert(paths_view(out@) =~= target.take(52));
    push_path(&mut out, "docs/migration/ALL_GUILDS_PARITY_CLOSURE_REPORT.md");
    assert(paths_view(out@) =~= target.take(53));
    push_path(&mut out, "docs/migration/FULL_SOURCE_EXHAUSTIVE_PARITY_CERTIFICATION.md");
    assert(paths_view(out@) =~= target.take(54));
    push_path(&mut out, "docs/migration/DUAL_MODE_ARCHITECTURE.md");
    assert(paths_view(out@) =~= target.take(55));
    push_path(&mut out, "docs/migration/CLASSIC_FREEZE_CONTRACT.md");
    assert(paths_view(out@) =~= target.take(56));
    push_path(&mut out, "docs/migration/DUAL_MODE_PARITY_CERTIFICATION.md");
    assert(paths_view(out@) =~= target.take(57));
    push_path(&mut out, "docs/migration/MODERN_SLICE_01_OBJECTIVE_JOURNAL.md");
    assert(paths_view(out@) =~= target.take(58));
    assert(target.take(58) =~= target);
    out
}

#[derive(Debug, Clone)]
pub struct ArtifactSnapshot {
    pub path: String,
    pub present: bool,
    pub size_bytes: u64,
    pub hash_fnv1a64: String,
}

pub struct SnapshotView {
    pub path: Seq<char>,
    pub present: bool,
    pub size_bytes: nat,
    pub hash_fnv1a64: Seq<char>,
}

pub open spec fn snapshot_views(v: Seq<ArtifactSnapshot>) -> Seq<SnapshotView> {
    Seq::new(v.len(), |i: int| SnapshotView { path: v[i].path@, present: v[i].present, size_bytes: v[i].size_bytes as nat, hash_fnv1a64: v[i].hash_fnv1a64@ })
}

/// The record of an artifact: its size and its FNV-1a hash as 16
/// lower-case hexadecimal digits when present, else size 0 and the hash
/// `missing`.
pub open spec fn spec_artifact_snapshot(path: Seq<char>, contents: Option<Seq<u8>>) -> SnapshotView {
    match contents {
        Some(bs) => SnapshotView {
            path,
            present: true,
            size_bytes: bs.len(),
            hash_fnv1a64: spec_hex_digits(spec_fnv1a64(bs) as nat, 16),
        },
        None => SnapshotView { path, present: false, size_bytes: 0, hash_fnv1a64: "missing"@ },
    }
}

pub open spec fn opt_bytes_view(c: Option<Vec<u8>>) -> Option<Seq<u8>> {
    match c {
        Some(v) => Some(v@),
        None => None,
    }
}

/// The record of the artifact at `path`, given its contents (`None` when
/// it does not exist).
pub fn artifact_snapshot(path: &str, contents: &Option<Vec<u8>>) -> (r: ArtifactSnapshot)
    ensures
        snapshot_views(seq![r])[0] == spec_artifact_snapshot(path@, opt_bytes_view(*contents)),
{
    match contents {
        Some(bytes) => {
            let mut hex: Vec<char> = Vec::new();
            push_hex_digits(&mut hex, fnv1a64(bytes.as_slice()), 16);
            ArtifactSnapshot {
                path: string_of(&chars_of(path)),
                present: true,
                size_bytes: bytes.len() as u64,
                hash_fnv1a64: string_of(&hex),
            }
        },
        None => ArtifactSnapshot {
            path: string_of(&chars_of(path)),
            present: false,
            size_bytes: 0,
            hash_fnv1a64: string_of(&chars_of("missing")),
        },
    }
}

#[derive(Debug, Clone)]
pub struct BaselineFreeze {
    pub generated_at_utc: String,
    pub status: String,
    pub total: usize,
    pub present: usize,
    pub missing: usize,
    pub artifacts: Vec<ArtifactSnapshot>,
}

pub open spec fn spec_present_count(v: Seq<SnapshotView>) -> nat
    decreases v.len(),
{
    if v.len() == 0 {
        0
    } else {
        spec_present_count(v.drop_last()) + if v.last().present {
            1nat
        } else {
            0nat
        }
    }
}

proof fn lemma_present_count_le(v: Seq<SnapshotView>)
    ensures
        spec_present_count(v) <= v.len(),
    decreases v.len(),
{
    if v.len() > 0 {
        lemma_present_count_le(v.drop_last());
    }
}

/// `f` records the artifacts: it keeps them, counts those present and
/// missing, and its status is `PASS` when none is missing.
pub open spec fn is_freeze_of(f: BaselineFreeze, arts: Seq<SnapshotView>) -> bool {
    &&& snapshot_views(f.artifacts@) == arts
    &&& f.total == arts.len()
    &&& f.present == spec_present_count(arts)
    &&& f.missing == f.total - f.present
    &&& f.status@ == spec_status_text(f.missing as nat)
}

/// The baseline freeze of the given records, stamped `generated_at_utc`.
pub fn baseline_freeze_at(artifacts: Vec<ArtifactSnapshot>, generated_at_utc: String) -> (r: BaselineFreeze)
    ensures
        is_freeze_of(r, snapshot_views(artifacts@)),
        r.generated_at_utc@ == generated_at_utc@,
{
    let ghost v = snapshot_views(artifacts@);
    let mut present: usize = 0;
    let mut i: usize = 0;
    while i < artifacts.len()
        invariant
            i <= artifacts.len(),
            v == snapshot_views(artifacts@),
            present == spec_present_count(v.take(i as int)),
        decreases artifacts.len() - i,
    {
        assert(v.take(i + 1).drop_last() =~= v.take(i as int));
        proof {
            lemma_present_count_le(v.take(i as int));
        }
        if artifacts[i].present {
            present = present + 1;
        }
        i = i + 1;
    }
    assert(v.take(artifacts.len() as int) =~= v);
    proof {
        lemma_present_count_le(v);
    }
    let total = artifacts.len();
    let missing = total - present;
    BaselineFreeze { generated_at_utc, status: status_text(missing), total, present, missing, artifacts }
}

/// The baseline freeze of the given records, stamped with the current time.
pub fn build_baseline_freeze(artifacts: Vec<ArtifactSnapshot>) -> (r: BaselineFreeze)
    ensures
        is_freeze_of(r, snapshot_views(artifacts@)),
        exists|secs: u64| r.generated_at_utc@ == spec_unix_stamp(secs as nat),
{
    let stamp = now_utc_unix();
    baseline_freeze_at(artifacts, stamp)
}

/// The records of the required artifacts, given each one's contents in the
/// order of `spec_baseline_required_artifacts` (`None` where it is absent).
pub open spec fn spec_required_snapshots(contents: Seq<Option<Vec<u8>>>) -> Seq<SnapshotView> {
    Seq::new(
        contents.len(),
        |i: int| spec_artifact_snapshot(spec_baseline_required_artifacts()[i], opt_bytes_view(contents[i])),
    )
}

/// The baseline freeze of the required artifacts, given the contents of
/// each, in the order they are required, stamped `generated_at_utc`.
pub fn required_baseline_freeze_at(contents: &Vec<Option<Vec<u8>>>, generated_at_utc: String) -> (r: BaselineFreeze)
    requires
        contents.len() == spec_baseline_required_artifacts().len(),
    ensures
        is_freeze_of(r, spec_required_snapshots(contents@)),
        r.generated_at_utc@ == generated_at_utc@,
{
    let paths = baseline_required_artifacts();
    let ghost want = spec_required_snapshots(contents@);
    let mut records: Vec<ArtifactSnapshot> = Vec::new();
    let mut i: usize = 0;
    while i < contents.len()
        invariant
            i <= contents.len(),
            contents.len() == paths.len(),
            paths_view(paths@) == spec_baseline_required_artifacts(),
            want == spec_required_snapshots(contents@),
            snapshot_views(records@) == want.take(i as int),
        decreases contents.len() - i,
    {
        let rec = artifact_snapshot(paths[i].as_str(), &contents[i]);
        let ghost before = snapshot_views(records@);
        assert(paths_view(paths@)[i as int] == paths@[i as int]@);
        records.push(rec);
        assert(snapshot_views(records@) =~= before.push(snapshot_views(seq![rec])[0]));
        assert(want.take(i + 1) =~= want.take(i as int).push(want[i as int]));
        i = i + 1;
    }
    assert(want.take(contents.len() as int) =~= want);
    baseline_freeze_at(records, generated_at_utc)
}

/// The baseline freeze of the required artifacts, stamped with the current
/// time.
pub fn required_baseline_freeze(contents: &Vec<Option<Vec<u8>>>) -> (r: BaselineFreeze)
    requires
        contents.len() == spec_baseline_required_artifacts().len(),
    ensures
        is_freeze_of(r, spec_required_snapshots(contents@)),
        exists|secs: u64| r.generated_at_utc@ == spec_unix_stamp(secs as nat),
{
    let stamp = now_utc_unix();
    required_baseline_freeze_at(contents, stamp)
}

// ---------------------------------------------------------------------------
// Command behaviour matrix
// ---------------------------------------------------------------------------

/// The legacy command tokens whose behaviour the command matrix checks.
pub open spec fn spec_command_matrix_tokens() -> Seq<Seq<char>> {
    seq![
        "."@,
        ","@,
        "<"@,
        ">"@,
        "H"@,
        "s"@,
        "q"@,
        "r"@,
        "m"@,
        "a"@,
        "A"@,
        "t"@,
        "G"@,
        "D"@,
        "F"@,
        "O"@,
        "d"@,
        "e"@,
        "i"@,
        "?"@,
        "/"@,
        "x"@,
        "C"@,
        "R"@,
        "P"@,
        "V"@,
        "^f"@,
        "^g"@,
        "^w"@,
        "^x"@,
        "o"@,
        "c"@,
        "E"@,
        "p"@,
        "f"@,
        "v"@,
        "z"@,
        "b"@,
        "n"@,
        "u"@,
        "y"@,
    ]
}

/// The legacy command tokens whose behaviour the command matrix checks, in
/// order.
pub fn command_matrix_tokens() -> (r: Vec<String>)
    ensures
        paths_view(r@) == spec_command_matrix_tokens(),
{
    let ghost target = spec_command_matrix_tokens();
    let mut out: Vec<String> = Vec::new();
    push_path(&mut out, ".");
    assert(paths_view(out@) =~= target.take(1));
    push_path(&mut out, ",");
    assert(paths_view(out@) =~= target.take(2));
    push_path(&mut out, "<");
    assert(paths_view(out@) =~= target.take(3));
    push_path(&mut out, ">");
    assert(paths_view(out@) =~= target.take(4));
    push_path(&mut out, "H");
    assert(paths_view(out@) =~= target.take(5));
    push_path(&mut out, "s");
    assert(paths_view(out@) =~= target.take(6));
    push_path(&mut out, "q");
    assert(paths_view(out@) =~= target.take(7));
    push_path(&mut out, "r");
    assert(paths_view(out@) =~= target.take(8));
    push_path(&mut out, "m");
    assert(paths_view(out@) =~= target.take(9));
    push_path(&mut out, "a");
    assert(paths_view(out@) =~= target.take(10));
    push_path(&mut out, "A");
    assert(paths_view(out@) =~= target.take(11));
    push_path(&mut out, "t");
    assert(paths_view(out@) =~= target.take(12));
    push_path(&mut out, "G");
    assert(paths_view(out@) =~= target.take(13));
    push_path(&mut out, "D");
    assert(paths_view(out@) =~= target.take(14));
    push_path(&mut out, "F");
    assert(paths_view(out@) =~= target.take(15));
    push_path(&mut out, "O");
    assert(paths_view(out@) =~= target.take(16));
    push_path(&mut out, "d");
    assert(paths_view(out@) =~= target.take(17));
    push_path(&mut out, "e");
    assert(paths_view(out@) =~= target.take(18));
    push_path(&mut out, "i");
    assert(paths_view(out@) =~= target.take(19));
    push_path(&mut out, "?");
    assert(paths_view(out@) =~= target.take(20));
    push_path(&mut out, "/");
    assert(paths_view(out@) =~= target.take(21));
    push_path(&mut out, "x");
    assert(paths_view(out@) =~= target.take(22));
    push_path(&mut out, "C");
    assert(paths_view(out@) =~= target.take(23));
    push_path(&mut out, "R");
    assert(paths_view(out@) =~= target.take(24));
    push_path(&mut out, "P");
    assert(paths_view(out@) =~= target.take(25));
    push_path(&mut out, "V");
    assert(paths_view(out@) =~= target.take(26));
    push_path(&mut out, "^f");
    assert(paths_view(out@) =~= target.take(27));
    push_path(&mut out, "^g");
    assert(paths_view(out@) =~= target.take(28));
    push_path(&mut out, "^w");
    assert(paths_view(out@) =~= target.take(29));
    push_path(&mut out, "^x");
    assert(paths_view(out@) =~= target.take(30));
    push_path(&mut out, "o");
    assert(paths_view(out@) =~= target.take(31));
    push_path(&mut out, "c");
    assert(paths_view(out@) =~= target.take(32));
    push_path(&mut out, "E");
    assert(paths_view(out@) =~= target.take(33));
    push_path(&mut out, "p");
    assert(paths_view(out@) =~= target.take(34));
    push_path(&mut out, "f");
    assert(paths_view(out@) =~= target.take(35));
    push_path(&mut out, "v");
    assert(paths_view(out@) =~= target.take(36));
    push_path(&mut out, "z");
    assert(paths_view(out@) =~= target.take(37));
    push_path(&mut out, "b");
    assert(paths_view(out@) =~= target.take(38));
    push_path(&mut out, "n");
    assert(paths_view(out@) =~= target.take(39));
    push_path(&mut out, "u");
    assert(paths_view(out@) =~= target.take(40));
    push_path(&mut out, "y");
    assert(paths_view(out@) =~= target.take(41));
    assert(target.take(41) =~= target);
    out
}

/// How a legacy command was handled.
#[derive(Debug, Clone, Copy, PartialEq, Eq, Structural)]
pub enum CommandOutcome {
    /// The runtime reported the command as unsupported.
    Missing,
    /// The runtime handled it without modelling it fully, or reported
    /// nothing for it.
    Partial,
    /// The runtime handled it fully.
    Implemented,
}

/// The outcome of a legacy command, given the note and the full-modelling
/// flag of the runtime's report on it (`None` when it reported nothing).
pub open spec fn spec_command_outcome(handled: Option<(Seq<char>, bool)>) -> CommandOutcome {
    match handled {
        None => CommandOutcome::Partial,
        Some((note, fully)) => if crate::text::spec_starts_with(note, "unsupported legacy command"@) {
            CommandOutcome::Missing
        } else if !fully {
            CommandOutcome::Partial
        } else {
            CommandOutcome::Implemented
        },
    }
}

pub open spec fn handled_view(h: Option<(String, bool)>) -> Option<(Seq<char>, bool)> {
    match h {
        Some((n, f)) => Some((n@, f)),
        None => None,
    }
}

pub fn classify_command_outcome(handled: &Option<(String, bool)>) -> (r: CommandOutcome)
    ensures
        r == spec_command_outcome(handled_view(*handled)),
{
    match handled {
        None => CommandOutcome::Partial,
        Some((note, fully)) => {
            let n = chars_of(note.as_str());
            if crate::text::starts_with_str(&n, "unsupported legacy command") {
                CommandOutcome::Missing
            } else if !*fully {
                CommandOutcome::Partial
            } else {
                CommandOutcome::Implemented
            }
        },
    }
}

pub open spec fn spec_outcome_count(os: Seq<CommandOutcome>, o: CommandOutcome) -> nat
    decreases os.len(),
{
    if os.len() == 0 {
        0
    } else {
        spec_outcome_count(os.drop_last(), o) + if os.last() == o {
            1nat
        } else {
            0nat
        }
    }
}

proof fn lemma_outcome_count_le(os: Seq<CommandOutcome>, o: CommandOutcome)
    ensures
        spec_outcome_count(os, o) <= os.len(),
    decreases os.len(),
{
    if os.len() > 0 {
        lemma_outcome_count_le(os.drop_last(), o);
    }
}

fn outcome_count(os: &Vec<CommandOutcome>, o: CommandOutcome) -> (r: usize)
    ensures
        r == spec_outcome_count(os@, o),
{
    let mut n: usize = 0;
    let mut i: usize = 0;
    while i < os.len()
        invariant
            i <= os.len(),
            n == spec_outcome_count(os@.take(i as int), o),
        decreases os.len() - i,
    {
        assert(os@.take(i + 1).drop_last() =~= os@.take(i as int));
        proof {
            lemma_outcome_count_le(os@.take(i as int), o);
        }
        if os[i] == o {
            n = n + 1;
        }
        i = i + 1;
    }
    assert(os@.take(os.len() as int) =~= os@);
    n
}

/// The command matrix of the outcomes of the checked commands, stamped
/// `generated_at_utc`: no command is implemented under another key and no
/// keys conflict; the matrix passes when nothing is missing or partial.
pub fn command_matrix_at(outcomes: &Vec<CommandOutcome>, generated_at_utc: String) -> (r: TrueCommandBehaviorMatrix)
    ensures
        r.total == outcomes.len(),
        r.implemented_same_key == spec_outcome_count(outcomes@, CommandOutcome::Implemented),
        r.implemented_different_key == 0,
        r.partial == spec_outcome_count(outcomes@, CommandOutcome::Partial),
        r.missing == spec_outcome_count(outcomes@, CommandOutcome::Missing),
        r.key_conflict == 0,
        r.pass == (r.missing == 0 && r.partial == 0),
        r.generated_at_utc@ == generated_at_utc@,
{
    let implemented = outcome_count(outcomes, CommandOutcome::Implemented);
    let partial = outcome_count(outcomes, CommandOutcome::Partial);
    let missing = outcome_count(outcomes, CommandOutcome::Missing);
    TrueCommandBehaviorMatrix {
        generated_at_utc,
        total: outcomes.len(),
        implemented_same_key: implemented,
        implemented_different_key: 0,
        partial,
        missing,
        key_conflict: 0,
        pass: missing == 0 && partial == 0,
    }
}

/// The command matrix, stamped with the current time.
pub fn build_command_matrix(outcomes: &Vec<CommandOutcome>) -> (r: TrueCommandBehaviorMatrix)
    ensures
        r.total == outcomes.len(),
        r.implemented_same_key == spec_outcome_count(outcomes@, CommandOutcome::Implemented),
        r.implemented_different_key == 0,
        r.partial == spec_outcome_count(outcomes@, CommandOutcome::Partial),
        r.missing == spec_outcome_count(outcomes@, CommandOutcome::Missing),
        r.key_conflict == 0,
        r.pass == (r.missing == 0 && r.partial == 0),
        exists|secs: u64| r.generated_at_utc@ == spec_unix_stamp(secs as nat),
{
    let stamp = now_utc_unix();
    command_matrix_at(outcomes, stamp)
}

/// The refresh passes when every artifact it read or built passes: the
/// guild live check and the site branch diff are shown on the dashboard
/// but do not decide the run.
pub open spec fn spec_refresh_all_pass(
    d: DashboardEvidence,
    dash: TrueParityRegressionDashboard,
    burnin: TrueBurninWindow,
    deviations: DeviationLedger,
    freeze: BaselineFreeze,
) -> bool {
    &&& spec_bool_field(d.startup, "pass"@)
    &&& spec_mechanics_pass(d.mechanics)
    &&& d.environment.pass
    &&& d.command.pass
    &&& spec_pass_field(d.legacy_command_binding_parity)
    &&& d.spells.pass
    &&& d.items.pass
    &&& d.combat.pass
    &&& d.site.pass
    &&& d.progression.pass
    &&& d.compatibility.pass
    &&& d.frontend.pass
    &&& spec_pass_field(d.frontend_strict)
    &&& spec_replay_active_failed(d.replay_dashboard) == 0
    &&& spec_pass_field(d.service_branch_blackbox)
    &&& spec_pass_field(d.parity_certify)
    &&& spec_pass_field(d.classic_mode_drift_guard)
    &&& spec_pass_field(d.classic_objective_drift_guard)
    &&& spec_pass_field(d.modern_mode_smoke)
    &&& spec_pass_field(d.modern_bevy_visual_smoke)
    &&& spec_pass_field(d.modern_objective_blackbox_smoke)
    &&& spec_pass_field(d.bevy_visual_blackbox_suite)
    &&& spec_pass_field(d.dual_mode_blackbox_suite)
    &&& spec_pass_field(d.mode_artifact_integrity_guard)
    &&& spec_pass_field(d.classic_visual_drift_guard)
    &&& spec_pass_field(d.bevy_semantic_projection_parity)
    &&& dash.status@ == "PASS"@
    &&& burnin.pass
    &&& deviations.summary.open == 0
    &&& freeze.status@ == "PASS"@
}

pub fn refresh_all_pass(
    d: &DashboardEvidence,
    dash: &TrueParityRegressionDashboard,
    burnin: &TrueBurninWindow,
    deviations: &DeviationLedger,
    freeze: &BaselineFreeze,
) -> (r: bool)
    ensures
        r == spec_refresh_all_pass(*d, *dash, *burnin, *deviations, *freeze),
{
    let dash_status = chars_of(dash.status.as_str());
    let freeze_status = chars_of(freeze.status.as_str());
    bool_field(&d.startup, "pass") && mechanics_pass(&d.mechanics) && d.environment.pass && d.command.pass
        && pass_field(&d.legacy_command_binding_parity) && d.spells.pass && d.items.pass && d.combat.pass
        && d.site.pass && d.progression.pass && d.compatibility.pass && d.frontend.pass
        && pass_field(&d.frontend_strict) && replay_active_failed(&d.replay_dashboard) == 0
        && pass_field(&d.service_branch_blackbox) && pass_field(&d.parity_certify)
        && pass_field(&d.classic_mode_drift_guard) && pass_field(&d.classic_objective_drift_guard)
        && pass_field(&d.modern_mode_smoke) && pass_field(&d.modern_bevy_visual_smoke)
        && pass_field(&d.modern_objective_blackbox_smoke) && pass_field(&d.bevy_visual_blackbox_suite)
        && pass_field(&d.dual_mode_blackbox_suite) && pass_field(&d.mode_artifact_integrity_guard)
        && pass_field(&d.classic_visual_drift_guard) && pass_field(&d.bevy_semantic_projection_parity)
        && crate::text::chars_eq_str(&dash_status, "PASS") && burnin.pass && deviations.summary.open == 0
        && crate::text::chars_eq_str(&freeze_status, "PASS")
}


// ---------------------------------------------------------------------------
// Laws of the refresh
// ---------------------------------------------------------------------------

proof fn lemma_components_passed_lt(cs: Seq<ComponentView>, i: int)
    requires
        0 <= i < cs.len(),
        !cs[i].pass,
    ensures
        spec_components_passed(cs) < cs.len(),
    decreases cs.len(),
{
    lemma_components_passed_le(cs.drop_last());
    if i < cs.len() - 1 {
        assert(cs.drop_last()[i] == cs[i]);
        lemma_components_passed_lt(cs.drop_last(), i);
    }
}

/// A mechanics report without its pass flag, or counting anything unknown,
/// non-equivalent on the main tier, unresolved or excluded, fails the
/// dashboard's mechanics component, leaves the T1 deviation open, fails the
/// regression dashboard built from those components, and fails the
/// refresh's overall verdict.
pub proof fn law_mechanics_gaps_fail_the_refresh(
    d: DashboardEvidence,
    dash: TrueParityRegressionDashboard,
    burnin: TrueBurninWindow,
    deviations: DeviationLedger,
    freeze: BaselineFreeze,
    key: Seq<char>,
)
    requires
        spec_field(d.mechanics, "pass"@) != Some(FieldView::Bool(true)) || ((key == "unknown"@ || key
            == "main_non_equivalent"@ || key == "unresolved_gameplay"@ || key == "gameplay_excluded"@) && exists|n: u64|
            n > 0 && spec_field(d.mechanics, key) == Some(FieldView::Unsigned(n))),
    ensures
        spec_dashboard_components(d)[1].id == "mechanics"@,
        !spec_dashboard_components(d)[1].pass,
        spec_refresh_deviations(d, dash, burnin)[0].status == "OPEN"@,
        is_dashboard_of_components(dash, spec_dashboard_components(d)) ==> dash.status@ == "FAIL"@,
        !spec_refresh_all_pass(d, dash, burnin, deviations, freeze),
{
    let cs = spec_dashboard_components(d);
    assert(!cs[1].pass);
    lemma_components_passed_lt(cs, 1);
}

} // verus!
