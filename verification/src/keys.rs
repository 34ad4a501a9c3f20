//! The terminal frontend's key map: which command or session action each
//! key stands for.
use vstd::prelude::*;

use crate::arena::ArenaKey;
use crate::replay::{ReplayCommand, ReplayDirection};
use crate::text::{chars_of, is_ascii_graphic, spec_is_ascii_graphic, spec_to_ascii_lowercase, string_of, to_ascii_lowercase};

verus! {

broadcast use crate::views::group_view_lemmas;

/// A key as the frontend reads it.
#[derive(Debug, Clone, Copy, PartialEq, Eq, Structural)]
pub enum UiKey {
    Char(char),
    Ctrl(char),
    Up,
    Down,
    Left,
    Right,
    WizardToggle,
    Enter,
    Backspace,
    Esc,
    ThemeCycle,
    /// A mouse event; the key map gives it no action.
    Mouse,
}

/// What a key asks of the session.
#[derive(Debug, Clone, PartialEq, Eq)]
pub enum UiAction {
    Dispatch(ReplayCommand),
    SaveSlot,
    SaveAndQuit,
    LoadSlot,
    Restart,
    NewGame,
    Quit,
    /// The key does nothing.
    Ignore,
}

/// The mathematical form of a command.
pub enum CommandView {
    Wait,
    Move(ReplayDirection),
    Attack(ReplayDirection),
    Pickup,
    Drop(usize),
    Legacy(Seq<char>),
}

pub open spec fn command_view(c: ReplayCommand) -> CommandView {
    match c {
        ReplayCommand::Wait => CommandView::Wait,
        ReplayCommand::Move { direction } => CommandView::Move(direction),
        ReplayCommand::Attack { direction } => CommandView::Attack(direction),
        ReplayCommand::Pickup => CommandView::Pickup,
        ReplayCommand::Drop { slot } => CommandView::Drop(slot),
        ReplayCommand::Legacy { token } => CommandView::Legacy(token@),
    }
}

/// The mathematical form of an action.
pub enum ActionView {
    Dispatch(CommandView),
    SaveSlot,
    SaveAndQuit,
    LoadSlot,
    Restart,
    NewGame,
    Quit,
    Nothing,
}

pub open spec fn action_view(a: UiAction) -> ActionView {
    match a {
        UiAction::Dispatch(c) => ActionView::Dispatch(command_view(c)),
        UiAction::SaveSlot => ActionView::SaveSlot,
        UiAction::SaveAndQuit => ActionView::SaveAndQuit,
        UiAction::LoadSlot => ActionView::LoadSlot,
        UiAction::Restart => ActionView::Restart,
        UiAction::NewGame => ActionView::NewGame,
        UiAction::Quit => ActionView::Quit,
        UiAction::Ignore => ActionView::Nothing,
    }
}

/// The legacy token of a control key: `^` and the lower-case letter, for
/// the letters that have one.
pub open spec fn spec_map_ctrl_legacy(ch: char) -> Option<Seq<char>> {
    let l = spec_to_ascii_lowercase(ch);
    if l == 'f' || l == 'g' || l == 'i' || l == 'k' || l == 'l' || l == 'o' || l == 'p' || l == 'r' || l == 'w'
        || l == 'x' {
        Some(seq!['^', l])
    } else {
        None
    }
}

pub open spec fn opt_text_view(o: Option<String>) -> Option<Seq<char>> {
    match o {
        Some(s) => Some(s@),
        None => None,
    }
}

pub fn map_ctrl_legacy(ch: char) -> (r: Option<String>)
    ensures
        opt_text_view(r) == spec_map_ctrl_legacy(ch),
{
    let l = to_ascii_lowercase(ch);
    if l == 'f' || l == 'g' || l == 'i' || l == 'k' || l == 'l' || l == 'o' || l == 'p' || l == 'r' || l == 'w'
        || l == 'x' {
        let v = vec!['^', l];
        assert(v@ =~= seq!['^', l]);
        Some(string_of(&v))
    } else {
        None
    }
}

pub open spec fn legacy(token: Seq<char>) -> ActionView {
    ActionView::Dispatch(CommandView::Legacy(token))
}

/// The action of a typed character.
pub open spec fn spec_char_action(ch: char) -> ActionView {
    if ch == 'Q' {
        legacy(seq!['Q'])
    } else if ch == ' ' || ch == '.' {
        ActionView::Dispatch(CommandView::Wait)
    } else if ch == 'w' || ch == 'k' {
        ActionView::Dispatch(CommandView::Move(ReplayDirection::North))
    } else if ch == 's' || ch == 'j' {
        ActionView::Dispatch(CommandView::Move(ReplayDirection::South))
    } else if ch == 'h' {
        ActionView::Dispatch(CommandView::Move(ReplayDirection::West))
    } else if ch == 'd' || ch == 'l' {
        ActionView::Dispatch(CommandView::Move(ReplayDirection::East))
    } else if ch == 'W' {
        ActionView::Dispatch(CommandView::Attack(ReplayDirection::North))
    } else if ch == 'X' {
        ActionView::Dispatch(CommandView::Attack(ReplayDirection::South))
    } else if ch == 'A' {
        ActionView::Dispatch(CommandView::Attack(ReplayDirection::West))
    } else if ch == 'D' {
        ActionView::Dispatch(CommandView::Attack(ReplayDirection::East))
    } else if ch == 'g' {
        ActionView::Dispatch(CommandView::Pickup)
    } else if '1' <= ch && ch <= '9' {
        ActionView::Dispatch(CommandView::Drop((ch as int - '1' as int) as usize))
    } else if ch == 'S' {
        ActionView::SaveAndQuit
    } else if ch == 'L' {
        ActionView::LoadSlot
    } else if ch == 'R' {
        ActionView::Restart
    } else if ch == 'N' {
        ActionView::NewGame
    } else if spec_is_ascii_graphic(ch) {
        legacy(seq![ch])
    } else {
        ActionView::Nothing
    }
}

/// The action of a key.
pub open spec fn spec_map_input(key: UiKey) -> ActionView {
    match key {
        UiKey::Esc => ActionView::Quit,
        UiKey::ThemeCycle => ActionView::Nothing,
        UiKey::WizardToggle => legacy("^g"@),
        UiKey::Enter => legacy("<enter>"@),
        UiKey::Backspace => legacy("<backspace>"@),
        UiKey::Ctrl(ch) => match spec_map_ctrl_legacy(ch) {
            Some(t) => legacy(t),
            None => ActionView::Nothing,
        },
        UiKey::Up => ActionView::Dispatch(CommandView::Move(ReplayDirection::North)),
        UiKey::Down => ActionView::Dispatch(CommandView::Move(ReplayDirection::South)),
        UiKey::Left => ActionView::Dispatch(CommandView::Move(ReplayDirection::West)),
        UiKey::Right => ActionView::Dispatch(CommandView::Move(ReplayDirection::East)),
        UiKey::Char(ch) => spec_char_action(ch),
        UiKey::Mouse => ActionView::Nothing,
    }
}

fn legacy_action(token: &str) -> (r: UiAction)
    ensures
        action_view(r) == legacy(token@),
{
    UiAction::Dispatch(ReplayCommand::Legacy { token: string_of(&chars_of(token)) })
}

fn char_token(ch: char) -> (r: UiAction)
    ensures
        action_view(r) == legacy(seq![ch]),
{
    let v = vec![ch];
    assert(v@ =~= seq![ch]);
    UiAction::Dispatch(ReplayCommand::Legacy { token: string_of(&v) })
}

fn char_action(ch: char) -> (r: UiAction)
    ensures
        action_view(r) == spec_char_action(ch),
{
    if ch == 'Q' {
        char_token('Q')
    } else if ch == ' ' || ch == '.' {
        UiAction::Dispatch(ReplayCommand::Wait)
    } else if ch == 'w' || ch == 'k' {
        UiAction::Dispatch(ReplayCommand::Move { direction: ReplayDirection::North })
    } else if ch == 's' || ch == 'j' {
        UiAction::Dispatch(ReplayCommand::Move { direction: ReplayDirection::South })
    } else if ch == 'h' {
        UiAction::Dispatch(ReplayCommand::Move { direction: ReplayDirection::West })
    } else if ch == 'd' || ch == 'l' {
        UiAction::Dispatch(ReplayCommand::Move { direction: ReplayDirection::East })
    } else if ch == 'W' {
        UiAction::Dispatch(ReplayCommand::Attack { direction: ReplayDirection::North })
    } else if ch == 'X' {
        UiAction::Dispatch(ReplayCommand::Attack { direction: ReplayDirection::South })
    } else if ch == 'A' {
        UiAction::Dispatch(ReplayCommand::Attack { direction: ReplayDirection::West })
    } else if ch == 'D' {
        UiAction::Dispatch(ReplayCommand::Attack { direction: ReplayDirection::East })
    } else if ch == 'g' {
        UiAction::Dispatch(ReplayCommand::Pickup)
    } else if '1' <= ch && ch <= '9' {
        let slot = (ch as u32 - '1' as u32) as usize;
        UiAction::Dispatch(ReplayCommand::Drop { slot })
    } else if ch == 'S' {
        UiAction::SaveAndQuit
    } else if ch == 'L' {
        UiAction::LoadSlot
    } else if ch == 'R' {
        UiAction::Restart
    } else if ch == 'N' {
        UiAction::NewGame
    } else if is_ascii_graphic(ch) {
        char_token(ch)
    } else {
        UiAction::Ignore
    }
}

/// The action a key stands for.
pub fn map_input(key: UiKey) -> (r: UiAction)
    ensures
        action_view(r) == spec_map_input(key),
{
    match key {
        UiKey::Esc => UiAction::Quit,
        UiKey::ThemeCycle => UiAction::Ignore,
        UiKey::WizardToggle => legacy_action("^g"),
        UiKey::Enter => legacy_action("<enter>"),
        UiKey::Backspace => legacy_action("<backspace>"),
        UiKey::Ctrl(ch) => match map_ctrl_legacy(ch) {
            Some(token) => UiAction::Dispatch(ReplayCommand::Legacy { token }),
            None => UiAction::Ignore,
        },
        UiKey::Up => UiAction::Dispatch(ReplayCommand::Move { direction: ReplayDirection::North }),
        UiKey::Down => UiAction::Dispatch(ReplayCommand::Move { direction: ReplayDirection::South }),
        UiKey::Left => UiAction::Dispatch(ReplayCommand::Move { direction: ReplayDirection::West }),
        UiKey::Right => UiAction::Dispatch(ReplayCommand::Move { direction: ReplayDirection::East }),
        UiKey::Char(ch) => char_action(ch),
        UiKey::Mouse => UiAction::Ignore,
    }
}

/// The key that the test-ground panel reads for a frontend key: a tab
/// character is Tab, and keys that the panel has no use for are `Other`.
pub open spec fn spec_arena_key(key: UiKey) -> ArenaKey {
    match key {
        UiKey::Char(c) => if c == '\t' {
            ArenaKey::Tab
        } else {
            ArenaKey::Char(c)
        },
        UiKey::Up => ArenaKey::Up,
        UiKey::Down => ArenaKey::Down,
        UiKey::Enter => ArenaKey::Enter,
        UiKey::Esc => ArenaKey::Esc,
        UiKey::Backspace => ArenaKey::Backspace,
        _ => ArenaKey::Other,
    }
}

pub fn arena_key(key: UiKey) -> (r: ArenaKey)
    ensures
        r == spec_arena_key(key),
{
    match key {
        UiKey::Char(c) => if c == '\t' {
            ArenaKey::Tab
        } else {
            ArenaKey::Char(c)
        },
        UiKey::Up => ArenaKey::Up,
        UiKey::Down => ArenaKey::Down,
        UiKey::Enter => ArenaKey::Enter,
        UiKey::Esc => ArenaKey::Esc,
        UiKey::Backspace => ArenaKey::Backspace,
        _ => ArenaKey::Other,
    }
}

/// The action of a key while a prompt is open: the editing keys and typed
/// characters go to the prompt as legacy tokens, and the arrows move only
/// where the prompt asks for a direction.
pub open spec fn spec_modal_key_action(key: UiKey, direction_entry: bool) -> ActionView {
    match key {
        UiKey::Esc => legacy("<esc>"@),
        UiKey::Enter => legacy("<enter>"@),
        UiKey::Backspace => legacy("<backspace>"@),
        UiKey::Ctrl(ch) => match spec_map_ctrl_legacy(ch) {
            Some(t) => legacy(t),
            None => ActionView::Nothing,
        },
        UiKey::Char(ch) => legacy(seq![ch]),
        UiKey::Up => if direction_entry {
            ActionView::Dispatch(CommandView::Move(ReplayDirection::North))
        } else {
            ActionView::Nothing
        },
        UiKey::Down => if direction_entry {
            ActionView::Dispatch(CommandView::Move(ReplayDirection::South))
        } else {
            ActionView::Nothing
        },
        UiKey::Left => if direction_entry {
            ActionView::Dispatch(CommandView::Move(ReplayDirection::West))
        } else {
            ActionView::Nothing
        },
        UiKey::Right => if direction_entry {
            ActionView::Dispatch(CommandView::Move(ReplayDirection::East))
        } else {
            ActionView::Nothing
        },
        _ => ActionView::Nothing,
    }
}

fn move_if(direction_entry: bool, d: ReplayDirection) -> (r: UiAction)
    ensures
        action_view(r) == (if direction_entry {
            ActionView::Dispatch(CommandView::Move(d))
        } else {
            ActionView::Nothing
        }),
{
    if direction_entry {
        UiAction::Dispatch(ReplayCommand::Move { direction: d })
    } else {
        UiAction::Ignore
    }
}

pub fn modal_key_action(key: UiKey, direction_entry: bool) -> (r: UiAction)
    ensures
        action_view(r) == spec_modal_key_action(key, direction_entry),
{
    match key {
        UiKey::Esc => legacy_action("<esc>"),
        UiKey::Enter => legacy_action("<enter>"),
        UiKey::Backspace => legacy_action("<backspace>"),
        UiKey::Ctrl(ch) => match map_ctrl_legacy(ch) {
            Some(token) => UiAction::Dispatch(ReplayCommand::Legacy { token }),
            None => UiAction::Ignore,
        },
        UiKey::Char(ch) => char_token(ch),
        UiKey::Up => move_if(direction_entry, ReplayDirection::North),
        UiKey::Down => move_if(direction_entry, ReplayDirection::South),
        UiKey::Left => move_if(direction_entry, ReplayDirection::West),
        UiKey::Right => move_if(direction_entry, ReplayDirection::East),
        _ => UiAction::Ignore,
    }
}

/// What a key does once the session has ended.
#[derive(Debug, Clone, Copy, PartialEq, Eq, Structural)]
pub enum TerminalResponse {
    /// Acknowledge the end and leave.
    Quit,
    Restart,
    Load,
    /// Remind the player of the keys.
    Hint,
    Ignore,
}

pub open spec fn spec_terminal_response(key: UiKey) -> TerminalResponse {
    match key {
        UiKey::Esc => TerminalResponse::Quit,
        UiKey::Char(ch) => {
            let l = spec_to_ascii_lowercase(ch);
            if l == 'c' || l == 'q' {
                TerminalResponse::Quit
            } else if l == 'r' || l == 'n' {
                TerminalResponse::Restart
            } else if l == 'l' {
                TerminalResponse::Load
            } else {
                TerminalResponse::Hint
            }
        },
        _ => TerminalResponse::Ignore,
    }
}

/// Esc, `c` or `q` leave, `r` or `n` restart, `l` loads, in either case;
/// another character draws a reminder; other keys do nothing.
pub fn terminal_response(key: UiKey) -> (r: TerminalResponse)
    ensures
        r == spec_terminal_response(key),
{
    match key {
        UiKey::Esc => TerminalResponse::Quit,
        UiKey::Char(ch) => {
            let l = to_ascii_lowercase(ch);
            if l == 'c' || l == 'q' {
                TerminalResponse::Quit
            } else if l == 'r' || l == 'n' {
                TerminalResponse::Restart
            } else if l == 'l' {
                TerminalResponse::Load
            } else {
                TerminalResponse::Hint
            }
        },
        _ => TerminalResponse::Ignore,
    }
}

/// The log line that goes with a response, where there is one.
pub fn terminal_notice(r: TerminalResponse) -> (s: Option<&'static str>)
    ensures
        r == TerminalResponse::Quit ==> s.is_some() && s.unwrap()@ == "Game over acknowledged; returning to launcher."@,
        r == TerminalResponse::Hint ==> s.is_some() && s.unwrap()@
            == "Game over: press c/q/esc to continue, r/n to restart, or l to load."@,
        r != TerminalResponse::Quit && r != TerminalResponse::Hint ==> s.is_none(),
{
    match r {
        TerminalResponse::Quit => Some("Game over acknowledged; returning to launcher."),
        TerminalResponse::Hint => Some("Game over: press c/q/esc to continue, r/n to restart, or l to load."),
        _ => None,
    }
}

/// The line logged when the session ends in a loss or a win.
pub fn session_end_prompt(lost: bool) -> (s: &'static str)
    ensures
        s@ == (if lost {
            "You have died. Press c/q/esc to continue, r/n to restart, or l to load."@
        } else {
            "Victory complete. Press c/q/esc to continue, r/n to restart, or l to load."@
        }),
{
    if lost {
        "You have died. Press c/q/esc to continue, r/n to restart, or l to load."
    } else {
        "Victory complete. Press c/q/esc to continue, r/n to restart, or l to load."
    }
}

/// The square one step from `p`; north is up the map.
pub open spec fn spec_offset(p: (i32, i32), d: ReplayDirection) -> (int, int) {
    match d {
        ReplayDirection::North => (p.0 as int, p.1 - 1),
        ReplayDirection::South => (p.0 as int, p.1 + 1),
        ReplayDirection::East => (p.0 + 1, p.1 as int),
        ReplayDirection::West => (p.0 - 1, p.1 as int),
    }
}

/// Some monster stands on square `t`.
pub open spec fn spec_monster_at(monsters: Seq<(i32, i32)>, t: (int, int)) -> bool {
    exists|i: int| 0 <= i < monsters.len() && (#[trigger] monsters[i].0 as int, monsters[i].1 as int) == t
}

/// The adaptive capitals `W`, `X`, `A`, `D`: an attack where a monster
/// stands next to the player in that direction, else a move.
pub open spec fn spec_adaptive_command(ch: char, player: (i32, i32), monsters: Seq<(i32, i32)>) -> Option<CommandView> {
    let d = if ch == 'W' {
        Some(ReplayDirection::North)
    } else if ch == 'X' {
        Some(ReplayDirection::South)
    } else if ch == 'A' {
        Some(ReplayDirection::West)
    } else if ch == 'D' {
        Some(ReplayDirection::East)
    } else {
        None
    };
    match d {
        Some(dir) => if spec_monster_at(monsters, spec_offset(player, dir)) {
            Some(CommandView::Attack(dir))
        } else {
            Some(CommandView::Move(dir))
        },
        None => None,
    }
}

pub open spec fn opt_command_view(c: Option<ReplayCommand>) -> Option<CommandView> {
    match c {
        Some(c) => Some(command_view(c)),
        None => None,
    }
}

pub fn adaptive_directional_command(ch: char, player: (i32, i32), monsters: &Vec<(i32, i32)>) -> (r: Option<
    ReplayCommand,
>)
    requires
        i32::MIN < player.0 < i32::MAX,
        i32::MIN < player.1 < i32::MAX,
    ensures
        opt_command_view(r) == spec_adaptive_command(ch, player, monsters@),
{
    let d = if ch == 'W' {
        ReplayDirection::North
    } else if ch == 'X' {
        ReplayDirection::South
    } else if ch == 'A' {
        ReplayDirection::West
    } else if ch == 'D' {
        ReplayDirection::East
    } else {
        return None;
    };
    let target: (i32, i32) = match d {
        ReplayDirection::North => (player.0, player.1 - 1),
        ReplayDirection::South => (player.0, player.1 + 1),
        ReplayDirection::East => (player.0 + 1, player.1),
        ReplayDirection::West => (player.0 - 1, player.1),
    };
    let ghost t = spec_offset(player, d);
    assert(t == (target.0 as int, target.1 as int));
    let mut i: usize = 0;
    while i < monsters.len()
        invariant
            i <= monsters.len(),
            t == (target.0 as int, target.1 as int),
            t == spec_offset(player, d),
            spec_adaptive_command(ch, player, monsters@) == (if spec_monster_at(monsters@, t) {
                Some(CommandView::Attack(d))
            } else {
                Some(CommandView::Move(d))
            }),
            forall|k: int| 0 <= k < i ==> (monsters@[k].0 as int, monsters@[k].1 as int) != t,
        decreases monsters.len() - i,
    {
        if monsters[i].0 == target.0 && monsters[i].1 == target.1 {
            assert((monsters@[i as int].0 as int, monsters@[i as int].1 as int) == t);
            return Some(ReplayCommand::Attack { direction: d });
        }
        i = i + 1;
    }
    assert(!spec_monster_at(monsters@, t));
    Some(ReplayCommand::Move { direction: d })
}

/// The keys that move the player: the arrow keys, `w`/`k` and `s`/`j` north
/// and south (the vi keys agreeing with the arrows), `h` west, `d`/`l`
/// east; and no other key moves. Each upper-case `W`/`X`/`A`/`D` attacks in
/// its direction, and no other key attacks.
pub proof fn law_movement_keys(key: UiKey)
    ensures
        spec_map_input(key) == ActionView::Dispatch(CommandView::Move(ReplayDirection::North)) <==> (key == UiKey::Up
            || key == UiKey::Char('w') || key == UiKey::Char('k')),
        spec_map_input(key) == ActionView::Dispatch(CommandView::Move(ReplayDirection::South)) <==> (key
            == UiKey::Down || key == UiKey::Char('s') || key == UiKey::Char('j')),
        spec_map_input(key) == ActionView::Dispatch(CommandView::Move(ReplayDirection::West)) <==> (key == UiKey::Left
            || key == UiKey::Char('h')),
        spec_map_input(key) == ActionView::Dispatch(CommandView::Move(ReplayDirection::East)) <==> (key
            == UiKey::Right || key == UiKey::Char('d') || key == UiKey::Char('l')),
        spec_map_input(key) == ActionView::Dispatch(CommandView::Attack(ReplayDirection::North)) <==> key
            == UiKey::Char('W'),
        spec_map_input(key) == ActionView::Dispatch(CommandView::Attack(ReplayDirection::South)) <==> key
            == UiKey::Char('X'),
        spec_map_input(key) == ActionView::Dispatch(CommandView::Attack(ReplayDirection::West)) <==> key
            == UiKey::Char('A'),
        spec_map_input(key) == ActionView::Dispatch(CommandView::Attack(ReplayDirection::East)) <==> key
            == UiKey::Char('D'),
{
}

/// While a prompt is open no key leaves, saves, loads or restarts the
/// session: Esc goes to the prompt as a token, like every other key that
/// does anything.
pub proof fn law_modal_keys_stay_in_prompt(key: UiKey, direction_entry: bool)
    ensures
        spec_modal_key_action(key, direction_entry) is Dispatch || spec_modal_key_action(key, direction_entry)
            is Nothing,
        key == UiKey::Esc ==> spec_modal_key_action(key, direction_entry) == legacy("<esc>"@),
{
}

/// A prompt that asks for no direction locks out movement: typed letters,
/// the movement keys among them, go to the prompt as tokens, and the arrow
/// keys do nothing.
pub proof fn law_modal_locks_movement(key: UiKey)
    ensures
        match spec_modal_key_action(key, false) {
            ActionView::Dispatch(c) => c is Legacy,
            _ => true,
        },
        (key == UiKey::Up || key == UiKey::Down || key == UiKey::Left || key == UiKey::Right)
            ==> spec_modal_key_action(key, false) == ActionView::Nothing,
{
}

/// Once the session has ended every key but the theme key answers the end
/// screen; none reaches the game.
pub proof fn law_terminal_keys_answer_end_screen(
    key: UiKey,
    modal: bool,
    direction_entry: bool,
    player: (i32, i32),
    monsters: Seq<(i32, i32)>,
)
    requires
        key != UiKey::ThemeCycle,
    ensures
        spec_route_key(key, true, modal, direction_entry, player, monsters) == KeyRouteView::Terminal(
            spec_terminal_response(key),
        ),
{
}

/// Where the frontend sends a key that the test-ground panel passed on.
#[derive(Debug, Clone, PartialEq, Eq)]
pub enum KeyRoute {
    CycleTheme,
    /// The session has ended; the key answers the end screen.
    Terminal(TerminalResponse),
    /// The key becomes this action.
    Act(UiAction),
}

pub enum KeyRouteView {
    CycleTheme,
    Terminal(TerminalResponse),
    Act(ActionView),
}

pub open spec fn route_view(r: KeyRoute) -> KeyRouteView {
    match r {
        KeyRoute::CycleTheme => KeyRouteView::CycleTheme,
        KeyRoute::Terminal(t) => KeyRouteView::Terminal(t),
        KeyRoute::Act(a) => KeyRouteView::Act(action_view(a)),
    }
}

/// The theme key first; then the end screen, once the session has ended;
/// then an open prompt; then the adaptive capitals; then the key map.
pub open spec fn spec_route_key(
    key: UiKey,
    terminal: bool,
    modal: bool,
    direction_entry: bool,
    player: (i32, i32),
    monsters: Seq<(i32, i32)>,
) -> KeyRouteView {
    if key == UiKey::ThemeCycle {
        KeyRouteView::CycleTheme
    } else if terminal {
        KeyRouteView::Terminal(spec_terminal_response(key))
    } else if modal {
        KeyRouteView::Act(spec_modal_key_action(key, direction_entry))
    } else {
        match key {
            UiKey::Char(ch) => match spec_adaptive_command(ch, player, monsters) {
                Some(c) => KeyRouteView::Act(ActionView::Dispatch(c)),
                None => KeyRouteView::Act(spec_map_input(key)),
            },
            _ => KeyRouteView::Act(spec_map_input(key)),
        }
    }
}

pub fn route_key(
    key: UiKey,
    terminal: bool,
    modal: bool,
    direction_entry: bool,
    player: (i32, i32),
    monsters: &Vec<(i32, i32)>,
) -> (r: KeyRoute)
    requires
        i32::MIN < player.0 < i32::MAX,
        i32::MIN < player.1 < i32::MAX,
    ensures
        route_view(r) == spec_route_key(key, terminal, modal, direction_entry, player, monsters@),
{
    if key == UiKey::ThemeCycle {
        KeyRoute::CycleTheme
    } else if terminal {
        KeyRoute::Terminal(terminal_response(key))
    } else if modal {
        KeyRoute::Act(modal_key_action(key, direction_entry))
    } else {
        match key {
            UiKey::Char(ch) => match adaptive_directional_command(ch, player, monsters) {
                Some(c) => KeyRoute::Act(UiAction::Dispatch(c)),
                None => KeyRoute::Act(map_input(key)),
            },
            _ => KeyRoute::Act(map_input(key)),
        }
    }
}

} // verus!
