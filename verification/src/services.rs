//! The service branch checks: the blackbox smoke's scenarios and the
//! assertions on their final states, the service branch oracle, and the
//! differential certification of service state against the legacy replay.
use vstd::prelude::*;

use crate::reports::{push_bool, spec_bool_text};
use crate::text::{
    chars_eq_str, chars_of, contains_str, extend, extend_str, lowercase, push_dec, push_int,
    replace_char_str, spec_contains, spec_dec, spec_int, spec_join, spec_lowercase, spec_replace_char,
    string_of, join,
};

verus! {

broadcast use crate::views::group_view_lemmas;

pub open spec fn texts_view(v: Seq<String>) -> Seq<Seq<char>> {
    Seq::new(v.len(), |i: int| v[i]@)
}

fn text(s: &str) -> (r: String)
    ensures
        r@ == s@,
{
    string_of(&chars_of(s))
}

fn push_text(out: &mut Vec<String>, t: Vec<char>)
    ensures
        texts_view(final(out)@) == texts_view(old(out)@).push(t@),
{
    let ghost before = texts_view(out@);
    out.push(string_of(&t));
    assert(texts_view(out@) =~= before.push(t@));
}

// ---------------------------------------------------------------------------
// Placeholder noise in the log
// ---------------------------------------------------------------------------

/// A log line, in lower case, that contains one of the needles.
pub open spec fn spec_noisy_line(line: Seq<char>, needles: Seq<Seq<char>>) -> bool {
    exists|k: int| 0 <= k < needles.len() && spec_contains(spec_lowercase(line), #[trigger] needles[k])
}

pub open spec fn spec_has_noise(log: Seq<String>, needles: Seq<Seq<char>>) -> bool {
    exists|i: int| 0 <= i < log.len() && spec_noisy_line(#[trigger] log[i]@, needles)
}

/// The signatures of placeholder dialogue in a service log.
pub open spec fn spec_service_needles() -> Seq<Seq<char>> {
    seq!["audience held"@, "dialogue resolved with"@, "quest hooks processed"@]
}

/// The blackbox smoke also counts a generic audience as placeholder noise.
pub open spec fn spec_blackbox_needles() -> Seq<Seq<char>> {
    spec_service_needles().push("generic audience"@)
}

fn noisy_line(line: &str, generic_audience: bool) -> (r: bool)
    ensures
        r == spec_noisy_line(line@, if generic_audience { spec_blackbox_needles() } else { spec_service_needles() }),
{
    let lower = lowercase(&chars_of(line));
    let ghost needles = if generic_audience { spec_blackbox_needles() } else { spec_service_needles() };
    let a = contains_str(&lower, "audience held");
    let b = contains_str(&lower, "dialogue resolved with");
    let c = contains_str(&lower, "quest hooks processed");
    let d = generic_audience && contains_str(&lower, "generic audience");
    proof {
        if a {
            assert(spec_contains(spec_lowercase(line@), needles[0]));
        }
        if b {
            assert(spec_contains(spec_lowercase(line@), needles[1]));
        }
        if c {
            assert(spec_contains(spec_lowercase(line@), needles[2]));
        }
        if d {
            assert(spec_contains(spec_lowercase(line@), needles[3]));
        }
        if !(a || b || c || d) {
            assert forall|k: int| 0 <= k < needles.len() implies !spec_contains(spec_lowercase(line@), #[trigger] needles[k]) by {
                if k == 0 {
                } else if k == 1 {
                } else if k == 2 {
                } else {
                }
            }
        }
    }
    a || b || c || d
}

fn has_noise(log: &Vec<String>, generic_audience: bool) -> (r: bool)
    ensures
        r == spec_has_noise(log@, if generic_audience { spec_blackbox_needles() } else { spec_service_needles() }),
{
    let ghost needles = if generic_audience { spec_blackbox_needles() } else { spec_service_needles() };
    let mut i: usize = 0;
    while i < log.len()
        invariant
            i <= log.len(),
            needles == (if generic_audience { spec_blackbox_needles() } else { spec_service_needles() }),
            forall|k: int| 0 <= k < i ==> !spec_noisy_line(#[trigger] log@[k]@, needles),
        decreases log.len() - i,
    {
        if noisy_line(log[i].as_str(), generic_audience) {
            return true;
        }
        i = i + 1;
    }
    false
}

/// Whether a service log holds placeholder dialogue.
pub fn has_service_placeholder_noise(log: &Vec<String>) -> (r: bool)
    ensures
        r == spec_has_noise(log@, spec_service_needles()),
{
    has_noise(log, false)
}

/// Whether a log holds placeholder dialogue or a generic audience.
pub fn has_placeholder_noise(log: &Vec<String>) -> (r: bool)
    ensures
        r == spec_has_noise(log@, spec_blackbox_needles()),
{
    has_noise(log, true)
}

// ---------------------------------------------------------------------------
// The blackbox smoke
// ---------------------------------------------------------------------------

/// The final state of a blackbox scenario; enumerated values are given by
/// their `Debug` names.
#[derive(Debug, Clone)]
pub struct FinalStateVector {
    pub gold: i32,
    pub bank_gold: i32,
    pub food: i32,
    pub guild_rank: u8,
    pub priest_rank: u8,
    pub alignment: String,
    pub law_chaos_score: i32,
    pub deity_favor: i32,
    pub legal_heat: i32,
    pub quest_state: String,
    pub quest_steps_completed: u8,
    pub main_quest_stage: String,
    pub arena_rank: i8,
    pub arena_match_active: bool,
    pub inventory_count: usize,
    pub known_spells_count: usize,
    pub world_mode: String,
    pub map_semantic: String,
}

/// The scenarios of the blackbox smoke, in the order they run.
#[derive(Debug, Clone, Copy, PartialEq, Eq, Structural)]
pub enum BlackboxScenario {
    FixtureMercSuccess,
    FixtureBankFlow,
    FixtureCastleAudience,
    FixtureCharityService,
    FixtureCollegeService,
    FixtureOrderTalk,
    FixtureShopService,
    FixtureSorcerorsService,
    FixtureTempleService,
    FixtureArenaService,
    FixtureCityServiceLoop,
    ManualThievesSuccess,
    ManualThievesDenialLawful,
    ManualPalaceProgression,
    ManualMonasteryDonation,
    ManualCommandantBucket,
    ManualArmorerPurchase,
    ManualOrderInvalidThenCancel,
}

pub fn blackbox_scenarios() -> (r: Vec<BlackboxScenario>)
    ensures
        r@ == seq![
            BlackboxScenario::FixtureMercSuccess,
            BlackboxScenario::FixtureBankFlow,
            BlackboxScenario::FixtureCastleAudience,
            BlackboxScenario::FixtureCharityService,
            BlackboxScenario::FixtureCollegeService,
            BlackboxScenario::FixtureOrderTalk,
            BlackboxScenario::FixtureShopService,
            BlackboxScenario::FixtureSorcerorsService,
            BlackboxScenario::FixtureTempleService,
            BlackboxScenario::FixtureArenaService,
            BlackboxScenario::FixtureCityServiceLoop,
            BlackboxScenario::ManualThievesSuccess,
            BlackboxScenario::ManualThievesDenialLawful,
            BlackboxScenario::ManualPalaceProgression,
            BlackboxScenario::ManualMonasteryDonation,
            BlackboxScenario::ManualCommandantBucket,
            BlackboxScenario::ManualArmorerPurchase,
            BlackboxScenario::ManualOrderInvalidThenCancel,
        ],
{
    let r = vec![
        BlackboxScenario::FixtureMercSuccess,
        BlackboxScenario::FixtureBankFlow,
        BlackboxScenario::FixtureCastleAudience,
        BlackboxScenario::FixtureCharityService,
        BlackboxScenario::FixtureCollegeService,
        BlackboxScenario::FixtureOrderTalk,
        BlackboxScenario::FixtureShopService,
        BlackboxScenario::FixtureSorcerorsService,
        BlackboxScenario::FixtureTempleService,
        BlackboxScenario::FixtureArenaService,
        BlackboxScenario::FixtureCityServiceLoop,
        BlackboxScenario::ManualThievesSuccess,
        BlackboxScenario::ManualThievesDenialLawful,
        BlackboxScenario::ManualPalaceProgression,
        BlackboxScenario::ManualMonasteryDonation,
        BlackboxScenario::ManualCommandantBucket,
        BlackboxScenario::ManualArmorerPurchase,
        BlackboxScenario::ManualOrderInvalidThenCancel,
    ];
    r
}

pub open spec fn spec_scenario_id(s: BlackboxScenario) -> Seq<char> {
    match s {
        BlackboxScenario::FixtureMercSuccess => "fixture_merc_success"@,
        BlackboxScenario::FixtureBankFlow => "fixture_bank_flow"@,
        BlackboxScenario::FixtureCastleAudience => "fixture_castle_audience"@,
        BlackboxScenario::FixtureCharityService => "fixture_charity_service"@,
        BlackboxScenario::FixtureCollegeService => "fixture_college_service"@,
        BlackboxScenario::FixtureOrderTalk => "fixture_order_talk"@,
        BlackboxScenario::FixtureShopService => "fixture_shop_service"@,
        BlackboxScenario::FixtureSorcerorsService => "fixture_sorcerors_service"@,
        BlackboxScenario::FixtureTempleService => "fixture_temple_service"@,
        BlackboxScenario::FixtureArenaService => "fixture_arena_service"@,
        BlackboxScenario::FixtureCityServiceLoop => "fixture_city_service_loop"@,
        BlackboxScenario::ManualThievesSuccess => "manual_thieves_success"@,
        BlackboxScenario::ManualThievesDenialLawful => "manual_thieves_denial_lawful"@,
        BlackboxScenario::ManualPalaceProgression => "manual_palace_progression"@,
        BlackboxScenario::ManualMonasteryDonation => "manual_monastery_donation"@,
        BlackboxScenario::ManualCommandantBucket => "manual_commandant_bucket"@,
        BlackboxScenario::ManualArmorerPurchase => "manual_armorer_purchase"@,
        BlackboxScenario::ManualOrderInvalidThenCancel => "manual_order_invalid_then_cancel"@,
    }
}

pub fn scenario_id(s: BlackboxScenario) -> (r: &'static str)
    ensures
        r@ == spec_scenario_id(s),
{
    match s {
        BlackboxScenario::FixtureMercSuccess => "fixture_merc_success",
        BlackboxScenario::FixtureBankFlow => "fixture_bank_flow",
        BlackboxScenario::FixtureCastleAudience => "fixture_castle_audience",
        BlackboxScenario::FixtureCharityService => "fixture_charity_service",
        BlackboxScenario::FixtureCollegeService => "fixture_college_service",
        BlackboxScenario::FixtureOrderTalk => "fixture_order_talk",
        BlackboxScenario::FixtureShopService => "fixture_shop_service",
        BlackboxScenario::FixtureSorcerorsService => "fixture_sorcerors_service",
        BlackboxScenario::FixtureTempleService => "fixture_temple_service",
        BlackboxScenario::FixtureArenaService => "fixture_arena_service",
        BlackboxScenario::FixtureCityServiceLoop => "fixture_city_service_loop",
        BlackboxScenario::ManualThievesSuccess => "manual_thieves_success",
        BlackboxScenario::ManualThievesDenialLawful => "manual_thieves_denial_lawful",
        BlackboxScenario::ManualPalaceProgression => "manual_palace_progression",
        BlackboxScenario::ManualMonasteryDonation => "manual_monastery_donation",
        BlackboxScenario::ManualCommandantBucket => "manual_commandant_bucket",
        BlackboxScenario::ManualArmorerPurchase => "manual_armorer_purchase",
        BlackboxScenario::ManualOrderInvalidThenCancel => "manual_order_invalid_then_cancel",
    }
}

/// The replay fixture a scenario runs, for the fixture scenarios.
pub open spec fn spec_scenario_fixture(s: BlackboxScenario) -> Option<Seq<char>> {
    match s {
        BlackboxScenario::FixtureMercSuccess => Some("crates/omega-tools/fixtures/replay/r3_site_merc_guild.json"@),
        BlackboxScenario::FixtureBankFlow => Some("crates/omega-tools/fixtures/replay/r3_site_bank.json"@),
        BlackboxScenario::FixtureCastleAudience => Some("crates/omega-tools/fixtures/replay/r3_site_castle_talk.json"@),
        BlackboxScenario::FixtureCharityService => Some("crates/omega-tools/fixtures/replay/r3_site_charity.json"@),
        BlackboxScenario::FixtureCollegeService => Some("crates/omega-tools/fixtures/replay/r3_site_college.json"@),
        BlackboxScenario::FixtureOrderTalk => Some("crates/omega-tools/fixtures/replay/r3_site_order_talk.json"@),
        BlackboxScenario::FixtureShopService => Some("crates/omega-tools/fixtures/replay/r3_site_shop.json"@),
        BlackboxScenario::FixtureSorcerorsService => Some("crates/omega-tools/fixtures/replay/r3_site_sorcerors.json"@),
        BlackboxScenario::FixtureTempleService => Some("crates/omega-tools/fixtures/replay/r3_site_temple.json"@),
        BlackboxScenario::FixtureArenaService => Some("crates/omega-tools/fixtures/replay/r3_site_arena.json"@),
        BlackboxScenario::FixtureCityServiceLoop => Some("crates/omega-tools/fixtures/replay/p5_city_service_social.json"@),
        _ => None,
    }
}

pub fn scenario_fixture(s: BlackboxScenario) -> (r: Option<&'static str>)
    ensures
        match r {
            Some(p) => spec_scenario_fixture(s) == Some(p@),
            None => spec_scenario_fixture(s) is None,
        },
{
    match s {
        BlackboxScenario::FixtureMercSuccess => Some("crates/omega-tools/fixtures/replay/r3_site_merc_guild.json"),
        BlackboxScenario::FixtureBankFlow => Some("crates/omega-tools/fixtures/replay/r3_site_bank.json"),
        BlackboxScenario::FixtureCastleAudience => Some("crates/omega-tools/fixtures/replay/r3_site_castle_talk.json"),
        BlackboxScenario::FixtureCharityService => Some("crates/omega-tools/fixtures/replay/r3_site_charity.json"),
        BlackboxScenario::FixtureCollegeService => Some("crates/omega-tools/fixtures/replay/r3_site_college.json"),
        BlackboxScenario::FixtureOrderTalk => Some("crates/omega-tools/fixtures/replay/r3_site_order_talk.json"),
        BlackboxScenario::FixtureShopService => Some("crates/omega-tools/fixtures/replay/r3_site_shop.json"),
        BlackboxScenario::FixtureSorcerorsService => Some("crates/omega-tools/fixtures/replay/r3_site_sorcerors.json"),
        BlackboxScenario::FixtureTempleService => Some("crates/omega-tools/fixtures/replay/r3_site_temple.json"),
        BlackboxScenario::FixtureArenaService => Some("crates/omega-tools/fixtures/replay/r3_site_arena.json"),
        BlackboxScenario::FixtureCityServiceLoop => Some("crates/omega-tools/fixtures/replay/p5_city_service_social.json"),
        _ => None,
    }
}

/// The seed and the legacy tokens of a manual scenario.
pub open spec fn spec_manual_input(s: BlackboxScenario) -> Option<(u64, Seq<Seq<char>>)> {
    match s {
        BlackboxScenario::ManualThievesSuccess => Some((0xBB01u64, seq![">"@, "1"@, ">"@, "2"@])),
        BlackboxScenario::ManualThievesDenialLawful => Some((0xBB02u64, seq![">"@, "1"@])),
        BlackboxScenario::ManualPalaceProgression => Some((0xBB03u64, seq![">"@, "2"@])),
        BlackboxScenario::ManualMonasteryDonation => Some((0xBB04u64, seq![">"@, "1"@])),
        BlackboxScenario::ManualCommandantBucket => Some((0xBB05u64, seq![">"@, "1"@])),
        BlackboxScenario::ManualArmorerPurchase => Some((0xBB06u64, seq![">"@, "1"@])),
        BlackboxScenario::ManualOrderInvalidThenCancel => Some((0xBB07u64, seq![">"@, "9"@, "x"@])),
        _ => None,
    }
}

pub fn manual_input(s: BlackboxScenario) -> (r: Option<(u64, Vec<String>)>)
    ensures
        match r {
            Some((seed, tokens)) => spec_manual_input(s) == Some((seed, texts_view(tokens@))),
            None => spec_manual_input(s) is None,
        },
{
    let (seed, tokens): (u64, Vec<&str>) = match s {
        BlackboxScenario::ManualThievesSuccess => (0xBB01, vec![">", "1", ">", "2"]),
        BlackboxScenario::ManualThievesDenialLawful => (0xBB02, vec![">", "1"]),
        BlackboxScenario::ManualPalaceProgression => (0xBB03, vec![">", "2"]),
        BlackboxScenario::ManualMonasteryDonation => (0xBB04, vec![">", "1"]),
        BlackboxScenario::ManualCommandantBucket => (0xBB05, vec![">", "1"]),
        BlackboxScenario::ManualArmorerPurchase => (0xBB06, vec![">", "1"]),
        BlackboxScenario::ManualOrderInvalidThenCancel => (0xBB07, vec![">", "9", "x"]),
        _ => {
            return None;
        },
    };
    let ghost want = match spec_manual_input(s) {
        Some(p) => p.1,
        None => Seq::empty(),
    };
    let mut out: Vec<String> = Vec::new();
    let mut i: usize = 0;
    while i < tokens.len()
        invariant
            i <= tokens.len(),
            tokens@.len() == want.len(),
            forall|k: int| 0 <= k < tokens@.len() ==> tokens@[k]@ == want[k],
            texts_view(out@) == want.take(i as int),
        decreases tokens.len() - i,
    {
        push_text(&mut out, chars_of(tokens[i]));
        assert(want.take(i + 1) =~= want.take(i as int).push(want[i as int]));
        i = i + 1;
    }
    assert(want.take(tokens.len() as int) =~= want);
    Some((seed, out))
}

/// The input trace of a manual scenario: each token as `legacy:<token>`.
pub open spec fn spec_manual_trace(tokens: Seq<Seq<char>>) -> Seq<Seq<char>> {
    Seq::new(tokens.len(), |i: int| "legacy:"@ + tokens[i])
}

pub fn manual_trace(tokens: &Vec<String>) -> (r: Vec<String>)
    ensures
        texts_view(r@) == spec_manual_trace(texts_view(tokens@)),
{
    let ghost want = spec_manual_trace(texts_view(tokens@));
    let mut out: Vec<String> = Vec::new();
    let mut i: usize = 0;
    while i < tokens.len()
        invariant
            i <= tokens.len(),
            want == spec_manual_trace(texts_view(tokens@)),
            texts_view(out@) == want.take(i as int),
        decreases tokens.len() - i,
    {
        let mut t = chars_of("legacy:");
        extend_str(&mut t, tokens[i].as_str());
        push_text(&mut out, t);
        assert(want.take(i + 1) =~= want.take(i as int).push(want[i as int]));
        i = i + 1;
    }
    assert(want.take(tokens.len() as int) =~= want);
    out
}

/// What a run of a blackbox scenario left: the session status's `Debug`
/// name when it ended, the log, the state vector before the inputs (for a
/// manual scenario) and after them, the thieves guild rank and whether a
/// site prompt is still open.
#[derive(Debug, Clone)]
pub struct BlackboxRun {
    pub terminal_status: Option<String>,
    pub log: Vec<String>,
    pub before: FinalStateVector,
    pub after: FinalStateVector,
    pub thieves_rank: u8,
    pub site_prompt_open: bool,
}

/// The assertions particular to a scenario that failed, in order.
pub open spec fn spec_scenario_failures(s: BlackboxScenario, r: BlackboxRun) -> Seq<Seq<char>> {
    let b = r.before;
    let a = r.after;
    let quest_active = if a.quest_state@ != "Active"@ {
        seq!["expected quest_state Active, got "@ + a.quest_state@]
    } else {
        Seq::empty()
    };
    match s {
        BlackboxScenario::FixtureMercSuccess | BlackboxScenario::FixtureCityServiceLoop => (if a.guild_rank < 1 {
            seq![
                (if s == BlackboxScenario::FixtureMercSuccess {
                    "expected guild rank >=1, got "@
                } else {
                    "expected guild progression, got "@
                }) + spec_dec(a.guild_rank as nat),
            ]
        } else {
            Seq::empty()
        }) + quest_active,
        BlackboxScenario::FixtureBankFlow => (if a.bank_gold <= 0 {
            seq!["expected bank_gold >0, got "@ + spec_int(a.bank_gold as int)]
        } else {
            Seq::empty()
        }) + (if a.gold >= 250 {
            seq!["expected gold to decrease from baseline, got "@ + spec_int(a.gold as int)]
        } else {
            Seq::empty()
        }),
        BlackboxScenario::FixtureCastleAudience => quest_active,
        BlackboxScenario::FixtureCharityService => if a.food < 4 {
            seq!["expected food >=4 after charity aid, got "@ + spec_int(a.food as int)]
        } else {
            Seq::empty()
        },
        BlackboxScenario::FixtureCollegeService => if a.gold >= 250 {
            seq!["expected tuition/payment gold drop, got "@ + spec_int(a.gold as int)]
        } else {
            Seq::empty()
        },
        BlackboxScenario::FixtureOrderTalk => (if a.alignment@ != "Lawful"@ {
            seq!["expected lawful alignment after order audience, got "@ + a.alignment@]
        } else {
            Seq::empty()
        }) + quest_active,
        BlackboxScenario::FixtureShopService => if a.gold >= 250 {
            seq!["expected purchase gold drop, got "@ + spec_int(a.gold as int)]
        } else {
            Seq::empty()
        },
        BlackboxScenario::FixtureSorcerorsService => if a.gold >= 250 {
            seq!["expected initiation/research payment, got "@ + spec_int(a.gold as int)]
        } else {
            Seq::empty()
        },
        BlackboxScenario::FixtureTempleService => if a.priest_rank < 1 {
            seq!["expected priest rank >=1, got "@ + spec_dec(a.priest_rank as nat)]
        } else {
            Seq::empty()
        },
        BlackboxScenario::FixtureArenaService => if a.arena_rank < 1 && !a.arena_match_active {
            seq![
                "expected arena to either rank up or start an active match, got rank="@ + spec_int(a.arena_rank as int)
                    + " active="@ + spec_bool_text(a.arena_match_active),
            ]
        } else {
            Seq::empty()
        },
        BlackboxScenario::ManualThievesSuccess => if a.law_chaos_score >= b.law_chaos_score && a.legal_heat
            <= b.legal_heat {
            seq![
                "expected thieves branch to shift state (law/chaos or legal heat), before_lc="@ + spec_int(
                    b.law_chaos_score as int,
                ) + " after_lc="@ + spec_int(a.law_chaos_score as int) + " before_heat="@ + spec_int(
                    b.legal_heat as int,
                ) + " after_heat="@ + spec_int(a.legal_heat as int),
            ]
        } else {
            Seq::empty()
        },
        BlackboxScenario::ManualThievesDenialLawful => if r.thieves_rank > 0 {
            seq!["expected lawful denial to keep thieves rank 0, got "@ + spec_dec(r.thieves_rank as nat)]
        } else {
            Seq::empty()
        },
        BlackboxScenario::ManualPalaceProgression => if a.main_quest_stage@ == "ArtifactRecovered"@ {
            seq!["expected palace petition to advance main quest stage"@]
        } else {
            Seq::empty()
        },
        BlackboxScenario::ManualMonasteryDonation => (if a.gold > b.gold {
            seq![
                "monastery interaction increased gold unexpectedly: before="@ + spec_int(b.gold as int) + " after="@
                    + spec_int(a.gold as int),
            ]
        } else {
            Seq::empty()
        }) + (if a.deity_favor < b.deity_favor {
            seq![
                "monastery interaction reduced favor unexpectedly: before="@ + spec_int(b.deity_favor as int)
                    + " after="@ + spec_int(a.deity_favor as int),
            ]
        } else {
            Seq::empty()
        }),
        BlackboxScenario::ManualCommandantBucket => (if a.food <= b.food {
            seq![
                "expected commandant bucket to increase food: before="@ + spec_int(b.food as int) + " after="@
                    + spec_int(a.food as int),
            ]
        } else {
            Seq::empty()
        }) + (if a.gold >= b.gold {
            seq![
                "expected commandant bucket to cost gold: before="@ + spec_int(b.gold as int) + " after="@ + spec_int(
                    a.gold as int,
                ),
            ]
        } else {
            Seq::empty()
        }),
        BlackboxScenario::ManualArmorerPurchase => (if a.inventory_count <= b.inventory_count {
            seq![
                "expected armorer purchase to add inventory item: before="@ + spec_dec(b.inventory_count as nat)
                    + " after="@ + spec_dec(a.inventory_count as nat),
            ]
        } else {
            Seq::empty()
        }) + (if a.gold >= b.gold {
            seq![
                "expected armorer purchase to reduce gold: before="@ + spec_int(b.gold as int) + " after="@ + spec_int(
                    a.gold as int,
                ),
            ]
        } else {
            Seq::empty()
        }),
        BlackboxScenario::ManualOrderInvalidThenCancel => (if r.site_prompt_open {
            seq!["expected cancel path to close pending site interaction"@]
        } else {
            Seq::empty()
        }) + (if a.alignment@ != "Neutral"@ {
            seq!["unexpected alignment shift from invalid/cancel flow"@]
        } else {
            Seq::empty()
        }) + (if a.law_chaos_score != b.law_chaos_score {
            seq!["unexpected law/chaos shift from invalid/cancel flow"@]
        } else {
            Seq::empty()
        }),
    }
}

/// Every failed assertion of a run: a terminal session, placeholder noise
/// in the log, then the scenario's own.
pub open spec fn spec_blackbox_failures(s: BlackboxScenario, r: BlackboxRun) -> Seq<Seq<char>> {
    (match r.terminal_status {
        Some(st) => seq!["session status is terminal: "@ + st@],
        None => Seq::empty(),
    }) + (if spec_has_noise(r.log@, spec_blackbox_needles()) {
        seq!["placeholder dialogue noise detected in log"@]
    } else {
        Seq::empty()
    }) + spec_scenario_failures(s, r)
}

fn push_if(out: &mut Vec<String>, cond: bool, t: Vec<char>)
    ensures
        texts_view(final(out)@) == texts_view(old(out)@) + if cond {
            seq![t@]
        } else {
            Seq::<Seq<char>>::empty()
        },
{
    let ghost before = texts_view(out@);
    if cond {
        push_text(out, t);
    }
    assert(texts_view(out@) =~= before + if cond {
        seq![t@]
    } else {
        Seq::<Seq<char>>::empty()
    });
}

fn msg_int(prefix: &str, n: i64) -> (r: Vec<char>)
    requires
        n > i64::MIN,
    ensures
        r@ == prefix@ + spec_int(n as int),
{
    let mut t = chars_of(prefix);
    push_int(&mut t, n);
    t
}

fn msg_before_after(prefix: &str, before: i64, after: i64) -> (r: Vec<char>)
    requires
        before > i64::MIN,
        after > i64::MIN,
    ensures
        r@ == prefix@ + spec_int(before as int) + " after="@ + spec_int(after as int),
{
    let mut t = chars_of(prefix);
    push_int(&mut t, before);
    extend_str(&mut t, " after=");
    push_int(&mut t, after);
    t
}

fn text_is(s: &String, want: &str) -> (r: bool)
    ensures
        r == (s@ == want@),
{
    let c = chars_of(s.as_str());
    chars_eq_str(&c, want)
}

fn scenario_failures(s: BlackboxScenario, r: &BlackboxRun) -> (out: Vec<String>)
    ensures
        texts_view(out@) == spec_scenario_failures(s, *r),
{
    let b = &r.before;
    let a = &r.after;
    let mut out: Vec<String> = Vec::new();
    let ghost start = texts_view(out@);
    assert(start =~= Seq::<Seq<char>>::empty());
    match s {
        BlackboxScenario::FixtureMercSuccess | BlackboxScenario::FixtureCityServiceLoop => {
            let mut t = if s == BlackboxScenario::FixtureMercSuccess {
                chars_of("expected guild rank >=1, got ")
            } else {
                chars_of("expected guild progression, got ")
            };
            push_dec(&mut t, a.guild_rank as u64);
            push_if(&mut out, a.guild_rank < 1, t);
            let mut q = chars_of("expected quest_state Active, got ");
            extend_str(&mut q, a.quest_state.as_str());
            push_if(&mut out, !text_is(&a.quest_state, "Active"), q);
        },
        BlackboxScenario::FixtureBankFlow => {
            push_if(&mut out, a.bank_gold <= 0, msg_int("expected bank_gold >0, got ", a.bank_gold as i64));
            push_if(&mut out, a.gold >= 250, msg_int("expected gold to decrease from baseline, got ", a.gold as i64));
        },
        BlackboxScenario::FixtureCastleAudience => {
            let mut q = chars_of("expected quest_state Active, got ");
            extend_str(&mut q, a.quest_state.as_str());
            push_if(&mut out, !text_is(&a.quest_state, "Active"), q);
        },
        BlackboxScenario::FixtureCharityService => {
            push_if(&mut out, a.food < 4, msg_int("expected food >=4 after charity aid, got ", a.food as i64));
        },
        BlackboxScenario::FixtureCollegeService => {
            push_if(&mut out, a.gold >= 250, msg_int("expected tuition/payment gold drop, got ", a.gold as i64));
        },
        BlackboxScenario::FixtureOrderTalk => {
            let mut t = chars_of("expected lawful alignment after order audience, got ");
            extend_str(&mut t, a.alignment.as_str());
            push_if(&mut out, !text_is(&a.alignment, "Lawful"), t);
            let mut q = chars_of("expected quest_state Active, got ");
            extend_str(&mut q, a.quest_state.as_str());
            push_if(&mut out, !text_is(&a.quest_state, "Active"), q);
        },
        BlackboxScenario::FixtureShopService => {
            push_if(&mut out, a.gold >= 250, msg_int("expected purchase gold drop, got ", a.gold as i64));
        },
        BlackboxScenario::FixtureSorcerorsService => {
            push_if(&mut out, a.gold >= 250, msg_int("expected initiation/research payment, got ", a.gold as i64));
        },
        BlackboxScenario::FixtureTempleService => {
            let mut t = chars_of("expected priest rank >=1, got ");
            push_dec(&mut t, a.priest_rank as u64);
            push_if(&mut out, a.priest_rank < 1, t);
        },
        BlackboxScenario::FixtureArenaService => {
            let mut t = chars_of("expected arena to either rank up or start an active match, got rank=");
            push_int(&mut t, a.arena_rank as i64);
            extend_str(&mut t, " active=");
            push_bool(&mut t, a.arena_match_active);
            push_if(&mut out, a.arena_rank < 1 && !a.arena_match_active, t);
        },
        BlackboxScenario::ManualThievesSuccess => {
            let mut t = chars_of("expected thieves branch to shift state (law/chaos or legal heat), before_lc=");
            push_int(&mut t, b.law_chaos_score as i64);
            extend_str(&mut t, " after_lc=");
            push_int(&mut t, a.law_chaos_score as i64);
            extend_str(&mut t, " before_heat=");
            push_int(&mut t, b.legal_heat as i64);
            extend_str(&mut t, " after_heat=");
            push_int(&mut t, a.legal_heat as i64);
            push_if(&mut out, a.law_chaos_score >= b.law_chaos_score && a.legal_heat <= b.legal_heat, t);
        },
        BlackboxScenario::ManualThievesDenialLawful => {
            let mut t = chars_of("expected lawful denial to keep thieves rank 0, got ");
            push_dec(&mut t, r.thieves_rank as u64);
            push_if(&mut out, r.thieves_rank > 0, t);
        },
        BlackboxScenario::ManualPalaceProgression => {
            push_if(
                &mut out,
                text_is(&a.main_quest_stage, "ArtifactRecovered"),
                chars_of("expected palace petition to advance main quest stage"),
            );
        },
        BlackboxScenario::ManualMonasteryDonation => {
            push_if(
                &mut out,
                a.gold > b.gold,
                msg_before_after("monastery interaction increased gold unexpectedly: before=", b.gold as i64, a.gold as i64),
            );
            push_if(
                &mut out,
                a.deity_favor < b.deity_favor,
                msg_before_after(
                    "monastery interaction reduced favor unexpectedly: before=",
                    b.deity_favor as i64,
                    a.deity_favor as i64,
                ),
            );
        },
        BlackboxScenario::ManualCommandantBucket => {
            push_if(
                &mut out,
                a.food <= b.food,
                msg_before_after("expected commandant bucket to increase food: before=", b.food as i64, a.food as i64),
            );
            push_if(
                &mut out,
                a.gold >= b.gold,
                msg_before_after("expected commandant bucket to cost gold: before=", b.gold as i64, a.gold as i64),
            );
        },
        BlackboxScenario::ManualArmorerPurchase => {
            let mut t = chars_of("expected armorer purchase to add inventory item: before=");
            push_dec(&mut t, b.inventory_count as u64);
            extend_str(&mut t, " after=");
            push_dec(&mut t, a.inventory_count as u64);
            push_if(&mut out, a.inventory_count <= b.inventory_count, t);
            push_if(
                &mut out,
                a.gold >= b.gold,
                msg_before_after("expected armorer purchase to reduce gold: before=", b.gold as i64, a.gold as i64),
            );
        },
        BlackboxScenario::ManualOrderInvalidThenCancel => {
            push_if(&mut out, r.site_prompt_open, chars_of("expected cancel path to close pending site interaction"));
            push_if(
                &mut out,
                !text_is(&a.alignment, "Neutral"),
                chars_of("unexpected alignment shift from invalid/cancel flow"),
            );
            push_if(
                &mut out,
                a.law_chaos_score != b.law_chaos_score,
                chars_of("unexpected law/chaos shift from invalid/cancel flow"),
            );
        },
    }
    assert(texts_view(out@) =~= spec_scenario_failures(s, *r));
    out
}

#[derive(Debug, Clone)]
pub struct BlackboxScenarioResult {
    pub id: String,
    pub pass: bool,
    pub input_trace: Vec<String>,
    pub final_state_vector: FinalStateVector,
    pub failed_assertions: Vec<String>,
}

/// The result of a blackbox scenario's run, given its input trace.
pub fn blackbox_scenario_result(s: BlackboxScenario, input_trace: Vec<String>, run: BlackboxRun) -> (r: BlackboxScenarioResult)
    ensures
        r.id@ == spec_scenario_id(s),
        texts_view(r.failed_assertions@) == spec_blackbox_failures(s, run),
        r.pass == (r.failed_assertions.len() == 0),
        r.input_trace@ == input_trace@,
        r.final_state_vector == run.after,
{
    let mut failures: Vec<String> = Vec::new();
    let ghost start = texts_view(failures@);
    match &run.terminal_status {
        Some(st) => {
            let mut t = chars_of("session status is terminal: ");
            extend_str(&mut t, st.as_str());
            push_text(&mut failures, t);
        },
        None => {},
    }
    push_if(&mut failures, has_placeholder_noise(&run.log), chars_of("placeholder dialogue noise detected in log"));
    let ghost mid = texts_view(failures@);
    let own = scenario_failures(s, &run);
    let mut k: usize = 0;
    while k < own.len()
        invariant
            k <= own.len(),
            texts_view(failures@) == mid + texts_view(own@).take(k as int),
        decreases own.len() - k,
    {
        push_text(&mut failures, chars_of(own[k].as_str()));
        assert(texts_view(own@).take(k + 1) =~= texts_view(own@).take(k as int).push(own@[k as int]@));
        k = k + 1;
    }
    assert(texts_view(own@).take(own.len() as int) =~= texts_view(own@));
    assert(texts_view(failures@) =~= spec_blackbox_failures(s, run));
    let pass = failures.len() == 0;
    BlackboxScenarioResult {
        id: text(scenario_id(s)),
        pass,
        input_trace,
        final_state_vector: run.after,
        failed_assertions: failures,
    }
}

#[derive(Debug, Clone)]
pub struct BlackboxSmokeReport {
    pub total: usize,
    pub passed: usize,
    pub failed: usize,
    pub pass: bool,
    pub scenarios: Vec<BlackboxScenarioResult>,
}

pub open spec fn spec_scenarios_passed(ss: Seq<BlackboxScenarioResult>) -> nat
    decreases ss.len(),
{
    if ss.len() == 0 {
        0
    } else {
        spec_scenarios_passed(ss.drop_last()) + if ss.last().pass {
            1nat
        } else {
            0nat
        }
    }
}

/// The blackbox report of the scenario results: it passes when none
/// failed.
pub fn blackbox_report(scenarios: Vec<BlackboxScenarioResult>) -> (r: BlackboxSmokeReport)
    ensures
        r.scenarios@ == scenarios@,
        r.total == scenarios.len(),
        r.passed == spec_scenarios_passed(scenarios@),
        r.failed == r.total - r.passed,
        r.pass == (r.failed == 0),
{
    let mut passed: usize = 0;
    let mut i: usize = 0;
    while i < scenarios.len()
        invariant
            i <= scenarios.len(),
            passed == spec_scenarios_passed(scenarios@.take(i as int)),
            passed <= i,
        decreases scenarios.len() - i,
    {
        assert(scenarios@.take(i + 1).drop_last() =~= scenarios@.take(i as int));
        if scenarios[i].pass {
            passed = passed + 1;
        }
        i = i + 1;
    }
    assert(scenarios@.take(scenarios.len() as int) =~= scenarios@);
    let total = scenarios.len();
    BlackboxSmokeReport { total, passed, failed: total - passed, pass: passed == total, scenarios }
}

pub open spec fn spec_pass_text(b: bool) -> Seq<char> {
    if b {
        "PASS"@
    } else {
        "FAIL"@
    }
}

pub open spec fn spec_blackbox_row(s: BlackboxScenarioResult) -> Seq<char> {
    "| "@ + s.id@ + " | "@ + spec_pass_text(s.pass) + " | "@ + spec_dec(s.input_trace.len() as nat) + " | "@
        + spec_dec(s.failed_assertions.len() as nat) + " |"@
}

pub open spec fn spec_failure_lines(s: BlackboxScenarioResult) -> Seq<Seq<char>> {
    if s.pass {
        Seq::empty()
    } else {
        seq!["## Failure: "@ + s.id@, Seq::empty(), "- Input trace:"@]
            + Seq::new(s.input_trace.len() as nat, |i: int| "  - `"@ + s.input_trace@[i]@ + "`"@)
            + seq!["- Assertions:"@]
            + Seq::new(s.failed_assertions.len() as nat, |i: int| "  - "@ + s.failed_assertions@[i]@)
            + seq![Seq::empty()]
    }
}

pub open spec fn spec_failure_sections(ss: Seq<BlackboxScenarioResult>) -> Seq<Seq<char>>
    decreases ss.len(),
{
    if ss.len() == 0 {
        Seq::empty()
    } else {
        spec_failure_sections(ss.drop_last()) + spec_failure_lines(ss.last())
    }
}

/// The lines of the blackbox smoke's Markdown, stamped `generated_at_utc`.
pub open spec fn spec_blackbox_lines(r: BlackboxSmokeReport, generated_at_utc: Seq<char>) -> Seq<Seq<char>> {
    seq![
        "# Service Branch Blackbox Smoke"@,
        Seq::empty(),
        "- generated_at_utc: `"@ + generated_at_utc + "`"@,
        "- total: `"@ + spec_dec(r.total as nat) + "`"@,
        "- passed: `"@ + spec_dec(r.passed as nat) + "`"@,
        "- failed: `"@ + spec_dec(r.failed as nat) + "`"@,
        "- status: `"@ + spec_pass_text(r.pass) + "`"@,
        Seq::empty(),
        "| Scenario | Status | Input Count | Failed Assertions |"@,
        "|---|---|---:|---:|"@,
    ] + Seq::new(r.scenarios.len() as nat, |i: int| spec_blackbox_row(r.scenarios@[i])) + seq![Seq::empty()]
        + spec_failure_sections(r.scenarios@)
}

fn push_line(lines: &mut Vec<Vec<char>>, l: Vec<char>)
    ensures
        final(lines).deep_view() == old(lines).deep_view().push(l@),
{
    let ghost before = lines.deep_view();
    lines.push(l);
    assert(lines.deep_view() =~= before.push(l@));
}

fn push_pass(out: &mut Vec<char>, b: bool)
    ensures
        final(out)@ == old(out)@ + spec_pass_text(b),
{
    if b {
        extend_str(out, "PASS");
    } else {
        extend_str(out, "FAIL");
    }
}

fn push_failure_lines(lines: &mut Vec<Vec<char>>, s: &BlackboxScenarioResult)
    ensures
        final(lines).deep_view() == old(lines).deep_view() + spec_failure_lines(*s),
{
    let ghost start = lines.deep_view();
    if s.pass {
        assert(lines.deep_view() =~= start + spec_failure_lines(*s));
        return;
    }
    let mut h = chars_of("## Failure: ");
    extend_str(&mut h, s.id.as_str());
    push_line(lines, h);
    push_line(lines, Vec::new());
    push_line(lines, chars_of("- Input trace:"));
    let ghost head = lines.deep_view();
    let ghost traces = Seq::new(s.input_trace.len() as nat, |i: int| "  - `"@ + s.input_trace@[i]@ + "`"@);
    let mut i: usize = 0;
    while i < s.input_trace.len()
        invariant
            i <= s.input_trace.len(),
            traces == Seq::new(s.input_trace.len() as nat, |k: int| "  - `"@ + s.input_trace@[k]@ + "`"@),
            lines.deep_view() == head + traces.take(i as int),
        decreases s.input_trace.len() - i,
    {
        let mut l = chars_of("  - `");
        extend_str(&mut l, s.input_trace[i].as_str());
        extend_str(&mut l, "`");
        push_line(lines, l);
        assert(traces.take(i + 1) =~= traces.take(i as int).push(traces[i as int]));
        i = i + 1;
    }
    assert(traces.take(s.input_trace.len() as int) =~= traces);
    push_line(lines, chars_of("- Assertions:"));
    let ghost head2 = lines.deep_view();
    let ghost fails = Seq::new(s.failed_assertions.len() as nat, |i: int| "  - "@ + s.failed_assertions@[i]@);
    let mut j: usize = 0;
    while j < s.failed_assertions.len()
        invariant
            j <= s.failed_assertions.len(),
            fails == Seq::new(s.failed_assertions.len() as nat, |k: int| "  - "@ + s.failed_assertions@[k]@),
            lines.deep_view() == head2 + fails.take(j as int),
        decreases s.failed_assertions.len() - j,
    {
        let mut l = chars_of("  - ");
        extend_str(&mut l, s.failed_assertions[j].as_str());
        push_line(lines, l);
        assert(fails.take(j + 1) =~= fails.take(j as int).push(fails[j as int]));
        j = j + 1;
    }
    assert(fails.take(s.failed_assertions.len() as int) =~= fails);
    push_line(lines, Vec::new());
    assert(lines.deep_view() =~= start + spec_failure_lines(*s));
}

/// The Markdown of the blackbox smoke, stamped `generated_at_utc`.
pub fn blackbox_markdown_at(r: &BlackboxSmokeReport, generated_at_utc: &str) -> (md: String)
    ensures
        md@ == spec_join(spec_blackbox_lines(*r, generated_at_utc@), "\n"@),
{
    let mut lines: Vec<Vec<char>> = Vec::new();
    push_line(&mut lines, chars_of("# Service Branch Blackbox Smoke"));
    push_line(&mut lines, Vec::new());
    let mut l = chars_of("- generated_at_utc: `");
    extend_str(&mut l, generated_at_utc);
    extend_str(&mut l, "`");
    push_line(&mut lines, l);
    let mut l = chars_of("- total: `");
    push_dec(&mut l, r.total as u64);
    extend_str(&mut l, "`");
    push_line(&mut lines, l);
    let mut l = chars_of("- passed: `");
    push_dec(&mut l, r.passed as u64);
    extend_str(&mut l, "`");
    push_line(&mut lines, l);
    let mut l = chars_of("- failed: `");
    push_dec(&mut l, r.failed as u64);
    extend_str(&mut l, "`");
    push_line(&mut lines, l);
    let mut l = chars_of("- status: `");
    push_pass(&mut l, r.pass);
    extend_str(&mut l, "`");
    push_line(&mut lines, l);
    push_line(&mut lines, Vec::new());
    push_line(&mut lines, chars_of("| Scenario | Status | Input Count | Failed Assertions |"));
    push_line(&mut lines, chars_of("|---|---|---:|---:|"));
    let ghost head = lines.deep_view();
    let ghost rows = Seq::new(r.scenarios.len() as nat, |i: int| spec_blackbox_row(r.scenarios@[i]));
    let mut i: usize = 0;
    while i < r.scenarios.len()
        invariant
            i <= r.scenarios.len(),
            rows == Seq::new(r.scenarios.len() as nat, |k: int| spec_blackbox_row(r.scenarios@[k])),
            lines.deep_view() == head + rows.take(i as int),
        decreases r.scenarios.len() - i,
    {
        let s = &r.scenarios[i];
        let mut l = chars_of("| ");
        extend_str(&mut l, s.id.as_str());
        extend_str(&mut l, " | ");
        push_pass(&mut l, s.pass);
        extend_str(&mut l, " | ");
        push_dec(&mut l, s.input_trace.len() as u64);
        extend_str(&mut l, " | ");
        push_dec(&mut l, s.failed_assertions.len() as u64);
        extend_str(&mut l, " |");
        push_line(&mut lines, l);
        assert(rows.take(i + 1) =~= rows.take(i as int).push(rows[i as int]));
        i = i + 1;
    }
    assert(rows.take(r.scenarios.len() as int) =~= rows);
    push_line(&mut lines, Vec::new());
    let ghost head2 = lines.deep_view();
    let mut k: usize = 0;
    while k < r.scenarios.len()
        invariant
            k <= r.scenarios.len(),
            lines.deep_view() == head2 + spec_failure_sections(r.scenarios@.take(k as int)),
        decreases r.scenarios.len() - k,
    {
        assert(r.scenarios@.take(k + 1).drop_last() =~= r.scenarios@.take(k as int));
        push_failure_lines(&mut lines, &r.scenarios[k]);
        assert(head2 + spec_failure_sections(r.scenarios@.take(k + 1)) =~= head2 + spec_failure_sections(
            r.scenarios@.take(k as int),
        ) + spec_failure_lines(r.scenarios@[k as int]));
        k = k + 1;
    }
    assert(r.scenarios@.take(r.scenarios.len() as int) =~= r.scenarios@);
    assert(lines.deep_view() =~= spec_blackbox_lines(*r, generated_at_utc@));
    let sep = chars_of("\n");
    string_of(&join(&lines, &sep))
}


// ---------------------------------------------------------------------------
// The service branch oracle
// ---------------------------------------------------------------------------

/// The fixtures the oracle replays, each with its check id.
pub open spec fn spec_oracle_fixtures() -> Seq<(Seq<char>, Seq<char>)> {
    seq![
        ("shop_service"@, "crates/omega-tools/fixtures/replay/r3_site_shop.json"@),
        ("bank_service"@, "crates/omega-tools/fixtures/replay/r3_site_bank.json"@),
        ("merc_service"@, "crates/omega-tools/fixtures/replay/r3_site_merc_guild.json"@),
        ("temple_service"@, "crates/omega-tools/fixtures/replay/r3_site_temple.json"@),
        ("college_service"@, "crates/omega-tools/fixtures/replay/r3_site_college.json"@),
        ("sorcerors_service"@, "crates/omega-tools/fixtures/replay/r3_site_sorcerors.json"@),
        ("charity_service"@, "crates/omega-tools/fixtures/replay/r3_site_charity.json"@),
        ("arena_service"@, "crates/omega-tools/fixtures/replay/r3_site_arena.json"@),
        ("order_talk"@, "crates/omega-tools/fixtures/replay/r3_site_order_talk.json"@),
        ("castle_talk"@, "crates/omega-tools/fixtures/replay/r3_site_castle_talk.json"@),
        ("city_economy_loop"@, "crates/omega-tools/fixtures/replay/p5_city_service_social.json"@),
    ]
}

pub open spec fn pairs_view(v: Seq<(String, String)>) -> Seq<(Seq<char>, Seq<char>)> {
    Seq::new(v.len(), |i: int| (v[i].0@, v[i].1@))
}

pub fn oracle_fixtures() -> (r: Vec<(String, String)>)
    ensures
        pairs_view(r@) == spec_oracle_fixtures(),
{
    let items = vec![
        ("shop_service", "crates/omega-tools/fixtures/replay/r3_site_shop.json"),
        ("bank_service", "crates/omega-tools/fixtures/replay/r3_site_bank.json"),
        ("merc_service", "crates/omega-tools/fixtures/replay/r3_site_merc_guild.json"),
        ("temple_service", "crates/omega-tools/fixtures/replay/r3_site_temple.json"),
        ("college_service", "crates/omega-tools/fixtures/replay/r3_site_college.json"),
        ("sorcerors_service", "crates/omega-tools/fixtures/replay/r3_site_sorcerors.json"),
        ("charity_service", "crates/omega-tools/fixtures/replay/r3_site_charity.json"),
        ("arena_service", "crates/omega-tools/fixtures/replay/r3_site_arena.json"),
        ("order_talk", "crates/omega-tools/fixtures/replay/r3_site_order_talk.json"),
        ("castle_talk", "crates/omega-tools/fixtures/replay/r3_site_castle_talk.json"),
        ("city_economy_loop", "crates/omega-tools/fixtures/replay/p5_city_service_social.json"),
    ];
    let ghost target = spec_oracle_fixtures();
    let mut out: Vec<(String, String)> = Vec::new();
    let mut i: usize = 0;
    while i < items.len()
        invariant
            i <= items.len(),
            items@.len() == target.len(),
            target == spec_oracle_fixtures(),
            forall|k: int| 0 <= k < items@.len() ==> items@[k].0@ == target[k].0 && items@[k].1@ == target[k].1,
            pairs_view(out@) == target.take(i as int),
        decreases items.len() - i,
    {
        let ghost before = pairs_view(out@);
        let (id, path) = items[i];
        out.push((text(id), text(path)));
        assert(pairs_view(out@) =~= before.push(target[i as int]));
        assert(target.take(i + 1) =~= target.take(i as int).push(target[i as int]));
        i = i + 1;
    }
    assert(target.take(items.len() as int) =~= target);
    out
}

/// What the oracle observed of one fixture's replay: whether the fixture
/// passed, whether a site prompt is still open, the log, and the final
/// values it reports (enumerated ones by their `Debug` names).
#[derive(Debug, Clone)]
pub struct OracleObservation {
    pub fixture_pass: bool,
    pub site_prompt_open: bool,
    pub log: Vec<String>,
    pub final_turn: u64,
    pub gold: i32,
    pub bank_gold: i32,
    pub guild_rank: u8,
    pub priest_rank: u8,
    pub alignment: String,
    pub quest_state: String,
    pub food: i32,
}

#[derive(Debug, Clone)]
pub struct BranchCheck {
    pub id: String,
    pub fixture: String,
    pub passed: bool,
    pub details: String,
}

/// The oracle's details of a replay.
pub open spec fn spec_oracle_details(o: OracleObservation) -> Seq<char> {
    let noise_free = !spec_has_noise(o.log@, spec_service_needles());
    "fixture_pass="@ + spec_bool_text(o.fixture_pass) + " no_open_prompt="@ + spec_bool_text(!o.site_prompt_open)
        + " no_placeholder_noise="@ + spec_bool_text(noise_free) + " final_turn="@ + spec_dec(o.final_turn as nat)
        + " gold="@ + spec_int(o.gold as int) + " bank="@ + spec_int(o.bank_gold as int) + " guild_rank="@ + spec_dec(
        o.guild_rank as nat,
    ) + " priest_rank="@ + spec_dec(o.priest_rank as nat) + " alignment="@ + o.alignment@ + " quest="@
        + o.quest_state@ + " food="@ + spec_int(o.food as int)
}

/// A service passes the oracle when its fixture passes, no site prompt is
/// left open and the log holds no placeholder dialogue.
pub open spec fn spec_oracle_pass(o: OracleObservation) -> bool {
    o.fixture_pass && !o.site_prompt_open && !spec_has_noise(o.log@, spec_service_needles())
}

pub fn run_fixture_check(id: &str, fixture: &str, o: &OracleObservation) -> (r: BranchCheck)
    ensures
        r.id@ == id@,
        r.fixture@ == fixture@,
        r.passed == spec_oracle_pass(*o),
        r.details@ == spec_oracle_details(*o),
{
    let noise_free = !has_service_placeholder_noise(&o.log);
    let mut d = chars_of("fixture_pass=");
    push_bool(&mut d, o.fixture_pass);
    extend_str(&mut d, " no_open_prompt=");
    push_bool(&mut d, !o.site_prompt_open);
    extend_str(&mut d, " no_placeholder_noise=");
    push_bool(&mut d, noise_free);
    extend_str(&mut d, " final_turn=");
    push_dec(&mut d, o.final_turn);
    extend_str(&mut d, " gold=");
    push_int(&mut d, o.gold as i64);
    extend_str(&mut d, " bank=");
    push_int(&mut d, o.bank_gold as i64);
    extend_str(&mut d, " guild_rank=");
    push_dec(&mut d, o.guild_rank as u64);
    extend_str(&mut d, " priest_rank=");
    push_dec(&mut d, o.priest_rank as u64);
    extend_str(&mut d, " alignment=");
    extend_str(&mut d, o.alignment.as_str());
    extend_str(&mut d, " quest=");
    extend_str(&mut d, o.quest_state.as_str());
    extend_str(&mut d, " food=");
    push_int(&mut d, o.food as i64);
    BranchCheck {
        id: text(id),
        fixture: text(fixture),
        passed: o.fixture_pass && !o.site_prompt_open && noise_free,
        details: string_of(&d),
    }
}

#[derive(Debug, Clone)]
pub struct BranchMatrix {
    pub total: usize,
    pub passed: usize,
    pub failed: usize,
    pub pass: bool,
    pub checks: Vec<BranchCheck>,
}

pub open spec fn spec_branch_passed(cs: Seq<BranchCheck>) -> nat
    decreases cs.len(),
{
    if cs.len() == 0 {
        0
    } else {
        spec_branch_passed(cs.drop_last()) + if cs.last().passed {
            1nat
        } else {
            0nat
        }
    }
}

pub fn branch_matrix(checks: Vec<BranchCheck>) -> (r: BranchMatrix)
    ensures
        r.checks@ == checks@,
        r.total == checks.len(),
        r.passed == spec_branch_passed(checks@),
        r.failed == r.total - r.passed,
        r.pass == (r.failed == 0),
{
    let mut passed: usize = 0;
    let mut i: usize = 0;
    while i < checks.len()
        invariant
            i <= checks.len(),
            passed == spec_branch_passed(checks@.take(i as int)),
            passed <= i,
        decreases checks.len() - i,
    {
        assert(checks@.take(i + 1).drop_last() =~= checks@.take(i as int));
        if checks[i].passed {
            passed = passed + 1;
        }
        i = i + 1;
    }
    assert(checks@.take(checks.len() as int) =~= checks@);
    let total = checks.len();
    BranchMatrix { total, passed, failed: total - passed, pass: passed == total, checks }
}

pub open spec fn spec_oracle_row(c: BranchCheck) -> Seq<char> {
    "| "@ + c.id@ + " | "@ + c.fixture@ + " | "@ + spec_pass_text(c.passed) + " | "@ + spec_replace_char(
        c.details@,
        '|',
        "\\|"@,
    ) + " |"@
}

pub open spec fn spec_oracle_lines(m: BranchMatrix) -> Seq<Seq<char>> {
    seq![
        "# Service Branch Oracle"@,
        Seq::empty(),
        "- Total checks: "@ + spec_dec(m.total as nat),
        "- Passed: "@ + spec_dec(m.passed as nat),
        "- Failed: "@ + spec_dec(m.failed as nat),
        "- Status: "@ + spec_pass_text(m.pass),
        Seq::empty(),
        "| Check | Fixture | Status | Details |"@,
        "|---|---|---|---|"@,
    ] + Seq::new(m.checks.len() as nat, |i: int| spec_oracle_row(m.checks@[i])) + seq![Seq::empty()]
}

fn counted_line(prefix: &str, n: usize) -> (r: Vec<char>)
    ensures
        r@ == prefix@ + spec_dec(n as nat),
{
    let mut l = chars_of(prefix);
    push_dec(&mut l, n as u64);
    l
}

pub fn oracle_markdown(m: &BranchMatrix) -> (md: String)
    ensures
        md@ == spec_join(spec_oracle_lines(*m), "\n"@),
{
    let mut lines: Vec<Vec<char>> = Vec::new();
    push_line(&mut lines, chars_of("# Service Branch Oracle"));
    push_line(&mut lines, Vec::new());
    push_line(&mut lines, counted_line("- Total checks: ", m.total));
    push_line(&mut lines, counted_line("- Passed: ", m.passed));
    push_line(&mut lines, counted_line("- Failed: ", m.failed));
    let mut l = chars_of("- Status: ");
    push_pass(&mut l, m.pass);
    push_line(&mut lines, l);
    push_line(&mut lines, Vec::new());
    push_line(&mut lines, chars_of("| Check | Fixture | Status | Details |"));
    push_line(&mut lines, chars_of("|---|---|---|---|"));
    let ghost head = lines.deep_view();
    let ghost rows = Seq::new(m.checks.len() as nat, |i: int| spec_oracle_row(m.checks@[i]));
    let mut i: usize = 0;
    while i < m.checks.len()
        invariant
            i <= m.checks.len(),
            rows == Seq::new(m.checks.len() as nat, |k: int| spec_oracle_row(m.checks@[k])),
            lines.deep_view() == head + rows.take(i as int),
        decreases m.checks.len() - i,
    {
        let c = &m.checks[i];
        let mut l = chars_of("| ");
        extend_str(&mut l, c.id.as_str());
        extend_str(&mut l, " | ");
        extend_str(&mut l, c.fixture.as_str());
        extend_str(&mut l, " | ");
        push_pass(&mut l, c.passed);
        extend_str(&mut l, " | ");
        let esc = replace_char_str(&chars_of(c.details.as_str()), '|', "\\|");
        extend(&mut l, &esc);
        extend_str(&mut l, " |");
        push_line(&mut lines, l);
        assert(rows.take(i + 1) =~= rows.take(i as int).push(rows[i as int]));
        i = i + 1;
    }
    assert(rows.take(m.checks.len() as int) =~= rows);
    push_line(&mut lines, Vec::new());
    assert(lines.deep_view() =~= spec_oracle_lines(*m));
    let sep = chars_of("\n");
    string_of(&join(&lines, &sep))
}

// ---------------------------------------------------------------------------
// The service branch differential certification
// ---------------------------------------------------------------------------

/// The certified fields of a replay's final state, each as its `Debug`
/// text, `None` where the replay did not record it.
#[derive(Debug, Clone)]
pub struct StateVector {
    pub gold: Option<String>,
    pub bank_gold: Option<String>,
    pub guild_rank: Option<String>,
    pub priest_rank: Option<String>,
    pub alignment: Option<String>,
    pub quest_state: Option<String>,
}

#[derive(Debug, Clone)]
pub struct ScenarioSnapshot {
    pub id: String,
    pub family: String,
    pub active: bool,
    pub state: StateVector,
}

#[derive(Debug, Clone)]
pub struct DiffResult {
    pub id: String,
    pub pass: bool,
    pub details: String,
    pub mismatches: Vec<String>,
}

pub open spec fn opt_view(o: Option<String>) -> Option<Seq<char>> {
    match o {
        Some(s) => Some(s@),
        None => None,
    }
}

/// The mismatch of one field: none when the legacy replay did not record
/// it or both agree.
pub open spec fn spec_compare_opt(name: Seq<char>, legacy: Option<Seq<char>>, rust: Option<Seq<char>>) -> Seq<Seq<char>> {
    match legacy {
        None => Seq::empty(),
        Some(l) => match rust {
            Some(r) => if r == l {
                Seq::empty()
            } else {
                seq![name + " mismatch: legacy="@ + l + " rust="@ + r]
            },
            None => seq![name + " missing in rust snapshot"@],
        },
    }
}

pub fn compare_opt(name: &str, legacy: &Option<String>, rust: &Option<String>, out: &mut Vec<String>)
    ensures
        texts_view(final(out)@) == texts_view(old(out)@) + spec_compare_opt(name@, opt_view(*legacy), opt_view(*rust)),
{
    let ghost before = texts_view(out@);
    match legacy {
        None => {},
        Some(l) => match rust {
            Some(r) => {
                let rc = chars_of(r.as_str());
                if !chars_eq_str(&rc, l.as_str()) {
                    let mut t = chars_of(name);
                    extend_str(&mut t, " mismatch: legacy=");
                    extend_str(&mut t, l.as_str());
                    extend_str(&mut t, " rust=");
                    extend_str(&mut t, r.as_str());
                    push_text(out, t);
                }
            },
            None => {
                let mut t = chars_of(name);
                extend_str(&mut t, " missing in rust snapshot");
                push_text(out, t);
            },
        },
    }
    assert(texts_view(out@) =~= before + spec_compare_opt(name@, opt_view(*legacy), opt_view(*rust)));
}

/// The mismatches of the certified fields, in order.
pub open spec fn spec_state_mismatches(l: StateVector, r: StateVector) -> Seq<Seq<char>> {
    spec_compare_opt("gold"@, opt_view(l.gold), opt_view(r.gold))
        + spec_compare_opt("bank_gold"@, opt_view(l.bank_gold), opt_view(r.bank_gold))
        + spec_compare_opt("guild_rank"@, opt_view(l.guild_rank), opt_view(r.guild_rank))
        + spec_compare_opt("priest_rank"@, opt_view(l.priest_rank), opt_view(r.priest_rank))
        + spec_compare_opt("alignment"@, opt_view(l.alignment), opt_view(r.alignment))
        + spec_compare_opt("quest_state"@, opt_view(l.quest_state), opt_view(r.quest_state))
}

/// The first runtime scenario with the id.
pub open spec fn spec_find_scenario(rs: Seq<ScenarioSnapshot>, id: Seq<char>) -> Option<ScenarioSnapshot>
    decreases rs.len(),
{
    if rs.len() == 0 {
        None
    } else if rs[0].id@ == id {
        Some(rs[0])
    } else {
        spec_find_scenario(rs.drop_first(), id)
    }
}

/// The legacy scenarios that are certified: the active site scenarios.
pub open spec fn spec_certified(s: ScenarioSnapshot) -> bool {
    s.active && spec_contains(s.family@, "site"@)
}

pub open spec fn spec_service_diff_result(l: ScenarioSnapshot, rust: Seq<ScenarioSnapshot>) -> (Seq<char>, Seq<Seq<char>>) {
    let mismatches = match spec_find_scenario(rust, l.id@) {
        Some(r) => spec_state_mismatches(l.state, r.state),
        None => seq!["missing rust service scenario"@],
    };
    (l.id@, mismatches)
}

pub open spec fn spec_service_diff_results(legacy: Seq<ScenarioSnapshot>, rust: Seq<ScenarioSnapshot>) -> Seq<(Seq<char>, Seq<Seq<char>>)>
    decreases legacy.len(),
{
    if legacy.len() == 0 {
        Seq::empty()
    } else if spec_certified(legacy.last()) {
        spec_service_diff_results(legacy.drop_last(), rust).push(spec_service_diff_result(legacy.last(), rust))
    } else {
        spec_service_diff_results(legacy.drop_last(), rust)
    }
}

/// The summary of the blackbox smoke that the certification reads.
#[derive(Debug, Clone, Copy)]
pub struct BlackboxSummary {
    pub pass: bool,
    pub total: usize,
    pub passed: usize,
    pub failed: usize,
}

/// `r` holds one result per certified legacy scenario, in order (passing
/// when it has no mismatch), then the blackbox suite's result.
pub open spec fn is_service_diff_of(r: Seq<DiffResult>, legacy: Seq<ScenarioSnapshot>, rust: Seq<ScenarioSnapshot>, b: BlackboxSummary) -> bool {
    let want = spec_service_diff_results(legacy, rust);
    &&& r.len() == want.len() + 1
    &&& forall|i: int|
        0 <= i < want.len() ==> {
            &&& (#[trigger] r[i]).id@ == want[i].0
            &&& texts_view(r[i].mismatches@) == want[i].1
            &&& r[i].pass == (want[i].1.len() == 0)
            &&& r[i].details@ == if want[i].1.len() == 0 {
                "service branch state aligned on certified fields"@
            } else {
                "service branch mismatch"@
            }
        }
    &&& r.last().id@ == "blackbox_service_suite"@
    &&& r.last().pass == b.pass
    &&& r.last().details@ == "blackbox pass="@ + spec_bool_text(b.pass) + " passed="@ + spec_dec(b.passed as nat) + "/"@
        + spec_dec(b.total as nat) + " failed="@ + spec_dec(b.failed as nat)
    &&& texts_view(r.last().mismatches@) == if b.pass {
        Seq::<Seq<char>>::empty()
    } else {
        seq!["service_branch_blackbox_smoke failed"@]
    }
}

fn find_scenario(rs: &Vec<ScenarioSnapshot>, id: &String) -> (r: Option<usize>)
    ensures
        match r {
            Some(i) => i < rs.len() && spec_find_scenario(rs@, id@) == Some(rs@[i as int]),
            None => spec_find_scenario(rs@, id@) is None,
        },
{
    assert(rs@.skip(0) =~= rs@);
    let mut i: usize = 0;
    while i < rs.len()
        invariant
            i <= rs.len(),
            spec_find_scenario(rs@, id@) == spec_find_scenario(rs@.skip(i as int), id@),
        decreases rs.len() - i,
    {
        assert(rs@.skip(i as int)[0] == rs@[i as int]);
        assert(rs@.skip(i as int).drop_first() =~= rs@.skip(i + 1));
        let c = chars_of(rs[i].id.as_str());
        if chars_eq_str(&c, id.as_str()) {
            return Some(i);
        }
        i = i + 1;
    }
    None
}

fn state_mismatches(l: &StateVector, r: &StateVector) -> (out: Vec<String>)
    ensures
        texts_view(out@) == spec_state_mismatches(*l, *r),
{
    let mut out: Vec<String> = Vec::new();
    let ghost e = texts_view(out@);
    assert(e =~= Seq::<Seq<char>>::empty());
    compare_opt("gold", &l.gold, &r.gold, &mut out);
    compare_opt("bank_gold", &l.bank_gold, &r.bank_gold, &mut out);
    compare_opt("guild_rank", &l.guild_rank, &r.guild_rank, &mut out);
    compare_opt("priest_rank", &l.priest_rank, &r.priest_rank, &mut out);
    compare_opt("alignment", &l.alignment, &r.alignment, &mut out);
    compare_opt("quest_state", &l.quest_state, &r.quest_state, &mut out);
    assert(texts_view(out@) =~= spec_state_mismatches(*l, *r));
    out
}

/// The results of the service branch differential certification.
pub fn service_diff_results(legacy: &Vec<ScenarioSnapshot>, rust: &Vec<ScenarioSnapshot>, blackbox: &BlackboxSummary) -> (r: Vec<DiffResult>)
    ensures
        is_service_diff_of(r@, legacy@, rust@, *blackbox),
{
    let ghost want_all = spec_service_diff_results(legacy@, rust@);
    let mut out: Vec<DiffResult> = Vec::new();
    let mut i: usize = 0;
    while i < legacy.len()
        invariant
            i <= legacy.len(),
            ({
                let want = spec_service_diff_results(legacy@.take(i as int), rust@);
                &&& out.len() == want.len()
                &&& forall|k: int|
                    0 <= k < want.len() ==> {
                        &&& (#[trigger] out@[k]).id@ == want[k].0
                        &&& texts_view(out@[k].mismatches@) == want[k].1
                        &&& out@[k].pass == (want[k].1.len() == 0)
                        &&& out@[k].details@ == if want[k].1.len() == 0 {
                            "service branch state aligned on certified fields"@
                        } else {
                            "service branch mismatch"@
                        }
                    }
            }),
        decreases legacy.len() - i,
    {
        assert(legacy@.take(i + 1).drop_last() =~= legacy@.take(i as int));
        assert(legacy@.take(i + 1).last() == legacy@[i as int]);
        let ghost prev = spec_service_diff_results(legacy@.take(i as int), rust@);
        let l = &legacy[i];
        let fam = chars_of(l.family.as_str());
        if l.active && contains_str(&fam, "site") {
            let ghost res = spec_service_diff_result(legacy@[i as int], rust@);
            let mismatches = match find_scenario(rust, &l.id) {
                Some(k) => state_mismatches(&l.state, &rust[k].state),
                None => {
                    let mut m: Vec<String> = Vec::new();
                    push_text(&mut m, chars_of("missing rust service scenario"));
                    assert(texts_view(m@) =~= seq!["missing rust service scenario"@]);
                    m
                },
            };
            assert(texts_view(mismatches@) == res.1);
            let pass = mismatches.len() == 0;
            let details = if pass {
                text("service branch state aligned on certified fields")
            } else {
                text("service branch mismatch")
            };
            let ghost before = out@;
            let id = l.id.clone();
            assert(id@ == res.0);
            out.push(DiffResult { id, pass, details, mismatches });
            assert(spec_service_diff_results(legacy@.take(i + 1), rust@) == prev.push(res));
            assert forall|k: int| 0 <= k < prev.len() implies out@[k] == before[k] by {}
        } else {
            assert(spec_service_diff_results(legacy@.take(i + 1), rust@) == prev);
        }
        i = i + 1;
    }
    assert(legacy@.take(legacy.len() as int) =~= legacy@);
    let mut d = chars_of("blackbox pass=");
    push_bool(&mut d, blackbox.pass);
    extend_str(&mut d, " passed=");
    push_dec(&mut d, blackbox.passed as u64);
    extend_str(&mut d, "/");
    push_dec(&mut d, blackbox.total as u64);
    extend_str(&mut d, " failed=");
    push_dec(&mut d, blackbox.failed as u64);
    let mut ms: Vec<String> = Vec::new();
    if !blackbox.pass {
        push_text(&mut ms, chars_of("service_branch_blackbox_smoke failed"));
    }
    assert(texts_view(ms@) =~= if blackbox.pass {
        Seq::<Seq<char>>::empty()
    } else {
        seq!["service_branch_blackbox_smoke failed"@]
    });
    let ghost before = out@;
    out.push(DiffResult { id: text("blackbox_service_suite"), pass: blackbox.pass, details: string_of(&d), mismatches: ms });
    assert forall|k: int| 0 <= k < want_all.len() implies out@[k] == before[k] by {}
    out
}

#[derive(Debug, Clone)]
pub struct ServiceDifferentialReport {
    pub generated_at_utc: String,
    pub total: usize,
    pub passed: usize,
    pub failed: usize,
    pub pass: bool,
    pub results: Vec<DiffResult>,
}

pub open spec fn spec_results_passed(rs: Seq<DiffResult>) -> nat
    decreases rs.len(),
{
    if rs.len() == 0 {
        0
    } else {
        spec_results_passed(rs.drop_last()) + if rs.last().pass {
            1nat
        } else {
            0nat
        }
    }
}

/// The certification report of the results, stamped `generated_at_utc`.
pub fn service_differential_report(results: Vec<DiffResult>, generated_at_utc: String) -> (r: ServiceDifferentialReport)
    ensures
        r.results@ == results@,
        r.total == results.len(),
        r.passed == spec_results_passed(results@),
        r.failed == r.total - r.passed,
        r.pass == (r.failed == 0),
        r.generated_at_utc@ == generated_at_utc@,
{
    let mut passed: usize = 0;
    let mut i: usize = 0;
    while i < results.len()
        invariant
            i <= results.len(),
            passed == spec_results_passed(results@.take(i as int)),
            passed <= i,
        decreases results.len() - i,
    {
        assert(results@.take(i + 1).drop_last() =~= results@.take(i as int));
        if results[i].pass {
            passed = passed + 1;
        }
        i = i + 1;
    }
    assert(results@.take(results.len() as int) =~= results@);
    let total = results.len();
    ServiceDifferentialReport { generated_at_utc, total, passed, failed: total - passed, pass: passed == total, results }
}

} // verus!
