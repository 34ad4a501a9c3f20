//! The text of the terminal frontend's end screen and of the status
//! panel's interaction line.
use vstd::prelude::*;

use crate::text::{chars_of, extend_str, push_dec, push_dec_wide, spec_dec, string_of};

verus! {

/// How the session stands.
#[derive(Debug, Clone, Copy, PartialEq, Eq, Structural)]
pub enum SessionStatus {
    InProgress,
    Won,
    Lost,
}

/// The title of the end screen's frame.
pub fn terminal_title(status: SessionStatus) -> (r: &'static str)
    ensures
        r@ == match status {
            SessionStatus::Lost => "DEATH"@,
            SessionStatus::Won => "VICTORY"@,
            SessionStatus::InProgress => "SESSION"@,
        },
{
    match status {
        SessionStatus::Lost => "DEATH",
        SessionStatus::Won => "VICTORY",
        SessionStatus::InProgress => "SESSION",
    }
}

pub open spec fn spec_headline(status: SessionStatus) -> Seq<char> {
    match status {
        SessionStatus::Lost => "You died!"@,
        SessionStatus::Won => "You are victorious!"@,
        SessionStatus::InProgress => "Session in progress."@,
    }
}

fn headline(status: SessionStatus) -> (r: &'static str)
    ensures
        r@ == spec_headline(status),
{
    match status {
        SessionStatus::Lost => "You died!",
        SessionStatus::Won => "You are victorious!",
        SessionStatus::InProgress => "Session in progress.",
    }
}

/// Decimal text of any `i64`.
pub open spec fn spec_signed(n: i64) -> Seq<char> {
    if n < 0 {
        "-"@ + spec_dec((-(n as int)) as nat)
    } else {
        spec_dec(n as nat)
    }
}

fn push_signed(out: &mut Vec<char>, n: i64)
    ensures
        final(out)@ == old(out)@ + spec_signed(n),
{
    if n < 0 {
        extend_str(out, "-");
        let m: i128 = -(n as i128);
        push_dec_wide(out, m as u128);
    } else {
        push_dec(out, n as u64);
    }
}

/// What the end screen shows of the session.
#[derive(Debug, Clone)]
pub struct TerminalFacts {
    pub status: SessionStatus,
    pub death_source: Option<String>,
    pub player_name: String,
    pub mode: String,
    pub turn: u64,
    pub minutes: u64,
    pub hp: i64,
    pub max_hp: i64,
    pub score: i64,
    pub save_slot: String,
    pub log: Vec<String>,
}

pub open spec fn texts(v: Seq<String>) -> Seq<Seq<char>> {
    Seq::new(v.len(), |i: int| v[i]@)
}

/// The last six log messages, oldest first, each as `- <message>`.
pub open spec fn spec_recent_log(log: Seq<Seq<char>>) -> Seq<Seq<char>> {
    let start = if log.len() > 6 { log.len() - 6 } else { 0 };
    Seq::new((log.len() - start) as nat, |i: int| "- "@ + log[start + i])
}

/// The end screen: the headline, who killed the player after a death, the
/// session's particulars, the keys, and the recent log.
pub open spec fn spec_terminal_lines(f: TerminalFacts) -> Seq<Seq<char>> {
    seq![spec_headline(f.status)] + (match f.death_source {
        Some(src) => if f.status == SessionStatus::Lost {
            seq!["Killed by "@ + src@ + "."@]
        } else {
            Seq::empty()
        },
        None => Seq::empty(),
    }) + seq![
        "Name: "@ + f.player_name@,
        "Mode: "@ + f.mode@,
        "Turn "@ + spec_dec(f.turn as nat) + "  Time "@ + spec_dec(f.minutes as nat) + "m  HP "@ + spec_signed(f.hp) + "/"@
            + spec_signed(f.max_hp),
        "Score: "@ + spec_signed(f.score),
        "Save slot: "@ + f.save_slot@,
        "Press c/q/esc to continue, r/n to restart, or l to load."@,
        Seq::empty(),
        "Recent log:"@,
    ] + spec_recent_log(texts(f.log@))
}

fn push_text(out: &mut Vec<String>, v: Vec<char>)
    ensures
        texts(final(out)@) == texts(old(out)@).push(v@),
{
    let ghost before = texts(out@);
    out.push(string_of(&v));
    assert(texts(out@) =~= before.push(v@));
}

pub fn terminal_lines(f: &TerminalFacts) -> (r: Vec<String>)
    ensures
        texts(r@) == spec_terminal_lines(*f),
{
    let ghost target = spec_terminal_lines(*f);
    let mut out: Vec<String> = Vec::new();
    push_text(&mut out, chars_of(headline(f.status)));
    match &f.death_source {
        Some(src) => {
            if f.status == SessionStatus::Lost {
                let mut l = chars_of("Killed by ");
                extend_str(&mut l, src.as_str());
                extend_str(&mut l, ".");
                push_text(&mut out, l);
            }
        },
        None => {},
    }
    let mut l = chars_of("Name: ");
    extend_str(&mut l, f.player_name.as_str());
    push_text(&mut out, l);
    let mut l = chars_of("Mode: ");
    extend_str(&mut l, f.mode.as_str());
    push_text(&mut out, l);
    let mut l = chars_of("Turn ");
    push_dec(&mut l, f.turn);
    extend_str(&mut l, "  Time ");
    push_dec(&mut l, f.minutes);
    extend_str(&mut l, "m  HP ");
    push_signed(&mut l, f.hp);
    extend_str(&mut l, "/");
    push_signed(&mut l, f.max_hp);
    push_text(&mut out, l);
    let mut l = chars_of("Score: ");
    push_signed(&mut l, f.score);
    push_text(&mut out, l);
    let mut l = chars_of("Save slot: ");
    extend_str(&mut l, f.save_slot.as_str());
    push_text(&mut out, l);
    push_text(&mut out, chars_of("Press c/q/esc to continue, r/n to restart, or l to load."));
    push_text(&mut out, Vec::new());
    push_text(&mut out, chars_of("Recent log:"));
    let ghost head = texts(out@);
    let ghost lv = texts(f.log@);
    let start: usize = if f.log.len() > 6 { f.log.len() - 6 } else { 0 };
    let mut i: usize = start;
    while i < f.log.len()
        invariant
            start <= i <= f.log.len(),
            start == (if lv.len() > 6 { lv.len() - 6 } else { 0 }),
            lv == texts(f.log@),
            texts(out@) == head + spec_recent_log(lv).take(i - start),
        decreases f.log.len() - i,
    {
        let mut l = chars_of("- ");
        extend_str(&mut l, f.log[i].as_str());
        push_text(&mut out, l);
        assert(spec_recent_log(lv).take(i + 1 - start) =~= spec_recent_log(lv).take(i - start).push("- "@ + lv[i as int]));
        i = i + 1;
    }
    assert(spec_recent_log(lv).take(f.log.len() - start) =~= spec_recent_log(lv));
    assert(texts(out@) =~= target);
    out
}

// ---------------------------------------------------------------------------
// The interaction line
// ---------------------------------------------------------------------------

/// The site whose menu is open.
#[derive(Debug, Clone, Copy, PartialEq, Eq, Structural)]
pub enum SiteKind {
    Shop,
    Armorer,
    Club,
    Gym,
    Healer,
    Casino,
    Commandant,
    Diner,
    Craps,
    Tavern,
    PawnShop,
    Brothel,
    Condo,
    Bank,
    MercGuild,
    ThievesGuild,
    Temple,
    College,
    Sorcerors,
    Castle,
    Palace,
    Order,
    Charity,
    Monastery,
    Arena,
    Altar { deity_id: u8 },
}

/// The deity of an altar.
pub open spec fn spec_deity(id: u8) -> Seq<char> {
    if id == 1 {
        "Odin"@
    } else if id == 2 {
        "Set"@
    } else if id == 3 {
        "Athena"@
    } else if id == 4 {
        "Hecate"@
    } else if id == 5 {
        "Destiny"@
    } else {
        "Unknown"@
    }
}

/// How the status panel names an open site menu and its keys; the arena's
/// prompt depends on whether the player holds an arena rank.
pub open spec fn spec_describe_site(kind: SiteKind, arena_rank: i8) -> Seq<char> {
    match kind {
        SiteKind::Shop => "shop menu (1-4, q/x close)"@,
        SiteKind::Armorer => "armorer menu (1-4, q/x close)"@,
        SiteKind::Club => "club menu (1-3, q/x close)"@,
        SiteKind::Gym => "gym menu (1-3, q/x close)"@,
        SiteKind::Healer => "healer menu (1-3, q/x close)"@,
        SiteKind::Casino => "casino menu (1-3, q/x close)"@,
        SiteKind::Commandant => "commandant menu (1-3, q/x close)"@,
        SiteKind::Diner => "diner menu (1-3, q/x close)"@,
        SiteKind::Craps => "craps menu (1-3, q/x close)"@,
        SiteKind::Tavern => "tavern menu (1-4, q/x close)"@,
        SiteKind::PawnShop => "pawn shop menu (1-3, q/x close)"@,
        SiteKind::Brothel => "brothel menu (1-3, q/x close)"@,
        SiteKind::Condo => "condo menu (1-3, q/x close)"@,
        SiteKind::Bank => "bank menu (1-4, q/x close)"@,
        SiteKind::MercGuild => "merc guild menu (1-4, q/x close)"@,
        SiteKind::ThievesGuild => "thieves guild menu (1-4, q/x close)"@,
        SiteKind::Temple => "temple menu (1-5, q/x close)"@,
        SiteKind::College => "college menu (1-4, q/x close)"@,
        SiteKind::Sorcerors => "sorcerors menu (1-4, q/x close)"@,
        SiteKind::Castle => "castle menu (1-4, q/x close)"@,
        SiteKind::Palace => "palace menu (1-3, q/x close)"@,
        SiteKind::Order => "order menu (1-4, q/x close)"@,
        SiteKind::Charity => "charity menu (1-4, q/x close)"@,
        SiteKind::Monastery => "monastery menu (1-4, q/x close)"@,
        SiteKind::Arena => if arena_rank > 0 {
            "Rampart Coliseum prompt (1/y fight, 2/n leave)"@
        } else {
            "Rampart Coliseum prompt (1/e enter, 2/r register, 3/x leave)"@
        },
        SiteKind::Altar { deity_id } => spec_deity(deity_id) + " altar menu (1-4, q/x close)"@,
    }
}

fn deity(id: u8) -> (r: &'static str)
    ensures
        r@ == spec_deity(id),
{
    if id == 1 {
        "Odin"
    } else if id == 2 {
        "Set"
    } else if id == 3 {
        "Athena"
    } else if id == 4 {
        "Hecate"
    } else if id == 5 {
        "Destiny"
    } else {
        "Unknown"
    }
}

fn describe_fixed(kind: SiteKind, arena_rank: i8) -> (r: &'static str)
    requires
        !(kind is Altar),
    ensures
        r@ == spec_describe_site(kind, arena_rank),
{
    match kind {
        SiteKind::Shop => "shop menu (1-4, q/x close)",
        SiteKind::Armorer => "armorer menu (1-4, q/x close)",
        SiteKind::Club => "club menu (1-3, q/x close)",
        SiteKind::Gym => "gym menu (1-3, q/x close)",
        SiteKind::Healer => "healer menu (1-3, q/x close)",
        SiteKind::Casino => "casino menu (1-3, q/x close)",
        SiteKind::Commandant => "commandant menu (1-3, q/x close)",
        SiteKind::Diner => "diner menu (1-3, q/x close)",
        SiteKind::Craps => "craps menu (1-3, q/x close)",
        SiteKind::Tavern => "tavern menu (1-4, q/x close)",
        SiteKind::PawnShop => "pawn shop menu (1-3, q/x close)",
        SiteKind::Brothel => "brothel menu (1-3, q/x close)",
        SiteKind::Condo => "condo menu (1-3, q/x close)",
        SiteKind::Bank => "bank menu (1-4, q/x close)",
        SiteKind::MercGuild => "merc guild menu (1-4, q/x close)",
        SiteKind::ThievesGuild => "thieves guild menu (1-4, q/x close)",
        SiteKind::Temple => "temple menu (1-5, q/x close)",
        SiteKind::College => "college menu (1-4, q/x close)",
        SiteKind::Sorcerors => "sorcerors menu (1-4, q/x close)",
        SiteKind::Castle => "castle menu (1-4, q/x close)",
        SiteKind::Palace => "palace menu (1-3, q/x close)",
        SiteKind::Order => "order menu (1-4, q/x close)",
        SiteKind::Charity => "charity menu (1-4, q/x close)",
        SiteKind::Monastery => "monastery menu (1-4, q/x close)",
        SiteKind::Arena => if arena_rank > 0 {
            "Rampart Coliseum prompt (1/y fight, 2/n leave)"
        } else {
            "Rampart Coliseum prompt (1/e enter, 2/r register, 3/x leave)"
        },
        SiteKind::Altar { .. } => "",
    }
}

pub fn describe_pending_interaction(kind: SiteKind, arena_rank: i8) -> (r: String)
    ensures
        r@ == spec_describe_site(kind, arena_rank),
{
    match kind {
        SiteKind::Altar { deity_id } => {
            let mut v = chars_of(deity(deity_id));
            extend_str(&mut v, " altar menu (1-4, q/x close)");
            string_of(&v)
        },
        _ => string_of(&chars_of(describe_fixed(kind, arena_rank))),
    }
}

/// Which prompts are open besides a site menu.
#[derive(Debug, Clone, Copy, PartialEq, Eq, Structural)]
pub struct PendingPrompts {
    pub wizard: bool,
    pub spell: bool,
    pub activation: bool,
    pub quit: bool,
    pub talk_direction: bool,
    pub inventory: bool,
    pub item: bool,
    pub targeting: bool,
}

/// The interaction line: the first open prompt, in the order the prompts
/// take precedence, then the site menu, else `none`.
pub open spec fn spec_interaction_label(p: PendingPrompts, site: Option<SiteKind>, arena_rank: i8) -> Seq<char> {
    if p.wizard {
        "wizard prompt active"@
    } else if p.spell {
        "spell prompt active"@
    } else if p.activation {
        "activation prompt active"@
    } else if p.quit {
        "quit confirmation active"@
    } else if p.talk_direction {
        "directional talk/tunnel prompt active"@
    } else if p.inventory {
        "inventory interaction active"@
    } else if p.item {
        "item selection prompt active"@
    } else if p.targeting {
        "targeting prompt active"@
    } else {
        match site {
            Some(k) => spec_describe_site(k, arena_rank),
            None => "none"@,
        }
    }
}

pub fn interaction_label(p: PendingPrompts, site: Option<SiteKind>, arena_rank: i8) -> (r: String)
    ensures
        r@ == spec_interaction_label(p, site, arena_rank),
{
    let fixed = if p.wizard {
        "wizard prompt active"
    } else if p.spell {
        "spell prompt active"
    } else if p.activation {
        "activation prompt active"
    } else if p.quit {
        "quit confirmation active"
    } else if p.talk_direction {
        "directional talk/tunnel prompt active"
    } else if p.inventory {
        "inventory interaction active"
    } else if p.item {
        "item selection prompt active"
    } else if p.targeting {
        "targeting prompt active"
    } else {
        return match site {
            Some(k) => describe_pending_interaction(k, arena_rank),
            None => string_of(&chars_of("none")),
        };
    };
    string_of(&chars_of(fixed))
}

// ---------------------------------------------------------------------------
// The status panel
// ---------------------------------------------------------------------------

/// The `Debug` name of a session status.
pub open spec fn spec_status_name(s: SessionStatus) -> Seq<char> {
    match s {
        SessionStatus::InProgress => "InProgress"@,
        SessionStatus::Won => "Won"@,
        SessionStatus::Lost => "Lost"@,
    }
}

pub(crate) fn status_name(s: SessionStatus) -> (r: &'static str)
    ensures
        r@ == spec_status_name(s),
{
    match s {
        SessionStatus::InProgress => "InProgress",
        SessionStatus::Won => "Won",
        SessionStatus::Lost => "Lost",
    }
}

/// A map position as the status panel shows it.
#[derive(Debug, Clone, Copy)]
pub struct PanelPoint {
    pub x: i32,
    pub y: i32,
}

/// What the status panel shows: the player, the clock, the vitals, the
/// purse, the world and quest (by their `Debug` names), the session's
/// status, what is pending, the save slot and theme, the latest timeline
/// line, and in modern mode the active objective and its first map marker.
#[derive(Debug, Clone)]
pub struct StatusFacts {
    pub player_name: String,
    pub mode: String,
    pub turn: u64,
    pub minutes: u64,
    pub position: PanelPoint,
    pub hp: i32,
    pub max_hp: i32,
    pub mana: i32,
    pub max_mana: i32,
    pub inventory: u64,
    pub capacity: u64,
    pub gold: i32,
    pub bank_gold: i32,
    pub food: i32,
    pub world: String,
    pub quest: String,
    pub status: SessionStatus,
    pub prompts: PendingPrompts,
    pub site: Option<SiteKind>,
    pub arena_rank: i8,
    pub save_slot: String,
    pub theme: String,
    pub latest: Option<String>,
    pub modern: bool,
    pub objective: Option<String>,
    pub marker: Option<PanelPoint>,
}

pub open spec fn spec_pair(a: i32, b: i32) -> Seq<char> {
    spec_signed(a as i64) + "/"@ + spec_signed(b as i64)
}

/// In modern mode, `Objective: ...` (or `No active objective.`) and, where
/// the objective has a map marker, the marker and its offset from the
/// player; nothing in classic mode.
pub open spec fn spec_objective_lines(f: StatusFacts) -> Seq<Seq<char>> {
    if f.modern {
        seq![
            "Objective: "@ + match f.objective {
                Some(o) => o@,
                None => "No active objective."@,
            },
        ] + match f.marker {
            Some(t) => seq![
                "Objective marker: ("@ + spec_signed(t.x as i64) + ", "@ + spec_signed(t.y as i64) + ")  Δx="@
                    + spec_signed((t.x - f.position.x) as i64) + " Δy="@ + spec_signed((t.y - f.position.y) as i64),
            ],
            None => Seq::empty(),
        }
    } else {
        Seq::empty()
    }
}

/// The status panel's lines, top to bottom.
pub open spec fn spec_status_lines(f: StatusFacts) -> Seq<Seq<char>> {
    seq![
        "Name: "@ + f.player_name@,
        "Mode: "@ + f.mode@,
        "Turn: "@ + spec_dec(f.turn as nat),
        "Time: "@ + spec_dec(f.minutes as nat) + "m"@,
        "Pos: ("@ + spec_signed(f.position.x as i64) + ", "@ + spec_signed(f.position.y as i64) + ")"@,
        "HP: "@ + spec_pair(f.hp, f.max_hp),
        "Mana: "@ + spec_pair(f.mana, f.max_mana),
        "Inventory: "@ + spec_dec(f.inventory as nat) + "/"@ + spec_dec(f.capacity as nat),
        "Gold/Bank/Food: "@ + spec_signed(f.gold as i64) + "/"@ + spec_signed(f.bank_gold as i64) + "/"@
            + spec_signed(f.food as i64),
        "World: "@ + f.world@,
        "Quest: "@ + f.quest@,
        "State: "@ + spec_status_name(f.status),
        "Interaction: "@ + spec_interaction_label(f.prompts, f.site, f.arena_rank),
        "Slot: "@ + f.save_slot@,
        "Theme: "@ + f.theme@ + " (F10 to switch)"@,
        "Keys: S save+quit, L load, R restart, Q retire/quit flow, a activate, z zap, Ctrl+F/G/I/K/L/O/P/R/W/X, F12 wizard"@,
        "Combat: move into adjacent monsters to bump-attack; uppercase WASD attacks directly. Move west with h or Left."@,
    ] + match f.latest {
        Some(l) => seq!["Latest: "@ + l@],
        None => Seq::empty(),
    } + spec_objective_lines(f)
}

fn push_pair(out: &mut Vec<char>, a: i32, b: i32)
    ensures
        final(out)@ == old(out)@ + spec_pair(a, b),
{
    push_signed(out, a as i64);
    extend_str(out, "/");
    push_signed(out, b as i64);
}

fn labelled(label: &str, text: &str) -> (r: Vec<char>)
    ensures
        r@ == label@ + text@,
{
    let mut l = chars_of(label);
    extend_str(&mut l, text);
    l
}

pub fn status_lines(f: &StatusFacts) -> (r: Vec<String>)
    ensures
        texts(r@) == spec_status_lines(*f),
{
    let mut out: Vec<String> = Vec::new();
    push_text(&mut out, labelled("Name: ", f.player_name.as_str()));
    push_text(&mut out, labelled("Mode: ", f.mode.as_str()));
    let mut l = chars_of("Turn: ");
    push_dec(&mut l, f.turn);
    push_text(&mut out, l);
    let mut l = chars_of("Time: ");
    push_dec(&mut l, f.minutes);
    extend_str(&mut l, "m");
    push_text(&mut out, l);
    let mut l = chars_of("Pos: (");
    push_signed(&mut l, f.position.x as i64);
    extend_str(&mut l, ", ");
    push_signed(&mut l, f.position.y as i64);
    extend_str(&mut l, ")");
    push_text(&mut out, l);
    let mut l = chars_of("HP: ");
    push_pair(&mut l, f.hp, f.max_hp);
    push_text(&mut out, l);
    let mut l = chars_of("Mana: ");
    push_pair(&mut l, f.mana, f.max_mana);
    push_text(&mut out, l);
    let mut l = chars_of("Inventory: ");
    push_dec(&mut l, f.inventory);
    extend_str(&mut l, "/");
    push_dec(&mut l, f.capacity);
    push_text(&mut out, l);
    let mut l = chars_of("Gold/Bank/Food: ");
    push_signed(&mut l, f.gold as i64);
    extend_str(&mut l, "/");
    push_signed(&mut l, f.bank_gold as i64);
    extend_str(&mut l, "/");
    push_signed(&mut l, f.food as i64);
    push_text(&mut out, l);
    push_text(&mut out, labelled("World: ", f.world.as_str()));
    push_text(&mut out, labelled("Quest: ", f.quest.as_str()));
    push_text(&mut out, labelled("State: ", status_name(f.status)));
    let interaction = interaction_label(f.prompts, f.site, f.arena_rank);
    push_text(&mut out, labelled("Interaction: ", interaction.as_str()));
    push_text(&mut out, labelled("Slot: ", f.save_slot.as_str()));
    let mut l = labelled("Theme: ", f.theme.as_str());
    extend_str(&mut l, " (F10 to switch)");
    push_text(&mut out, l);
    push_text(
        &mut out,
        chars_of(
            "Keys: S save+quit, L load, R restart, Q retire/quit flow, a activate, z zap, Ctrl+F/G/I/K/L/O/P/R/W/X, F12 wizard",
        ),
    );
    push_text(
        &mut out,
        chars_of(
            "Combat: move into adjacent monsters to bump-attack; uppercase WASD attacks directly. Move west with h or Left.",
        ),
    );
    match &f.latest {
        Some(last) => push_text(&mut out, labelled("Latest: ", last.as_str())),
        None => {},
    }
    let ghost with_latest = texts(out@);
    if f.modern {
        match &f.objective {
            Some(o) => push_text(&mut out, labelled("Objective: ", o.as_str())),
            None => push_text(&mut out, labelled("Objective: ", "No active objective.")),
        }
        match f.marker {
            Some(t) => {
                let mut l = chars_of("Objective marker: (");
                push_signed(&mut l, t.x as i64);
                extend_str(&mut l, ", ");
                push_signed(&mut l, t.y as i64);
                extend_str(&mut l, ")  Δx=");
                push_signed(&mut l, t.x as i64 - f.position.x as i64);
                extend_str(&mut l, " Δy=");
                push_signed(&mut l, t.y as i64 - f.position.y as i64);
                push_text(&mut out, l);
            },
            None => {},
        }
    }
    assert(texts(out@) =~= with_latest + spec_objective_lines(*f));
    out
}

} // verus!
