use omega_tools::arena::ArenaKey;
use omega_tools::keys::{
    adaptive_directional_command, arena_key, map_ctrl_legacy, map_input, modal_key_action, route_key,
    session_end_prompt, terminal_notice, terminal_response, KeyRoute, TerminalResponse, UiAction, UiKey,
};
use omega_tools::replay::{ReplayCommand, ReplayDirection};

fn legacy(token: &str) -> UiAction {
    UiAction::Dispatch(ReplayCommand::Legacy { token: token.to_string() })
}

#[test]
fn key_mapping_dispatches_expected_commands() {
    assert_eq!(
        map_input(UiKey::Char('w')),
        UiAction::Dispatch(ReplayCommand::Move { direction: ReplayDirection::North })
    );
    assert_eq!(
        map_input(UiKey::Char('h')),
        UiAction::Dispatch(ReplayCommand::Move { direction: ReplayDirection::West })
    );
    assert_eq!(map_input(UiKey::Char('a')), legacy("a"));
    assert_eq!(
        map_input(UiKey::Char('D')),
        UiAction::Dispatch(ReplayCommand::Attack { direction: ReplayDirection::East })
    );
    assert_eq!(map_input(UiKey::Char('g')), UiAction::Dispatch(ReplayCommand::Pickup));
    assert_eq!(map_input(UiKey::Char('2')), UiAction::Dispatch(ReplayCommand::Drop { slot: 1 }));
    assert_eq!(map_input(UiKey::Char('?')), legacy("?"));
    assert_eq!(map_input(UiKey::Char('q')), legacy("q"));
    assert_eq!(map_input(UiKey::WizardToggle), legacy("^g"));
    assert_eq!(map_input(UiKey::Ctrl('x')), legacy("^x"));
    assert_eq!(map_input(UiKey::Enter), legacy("<enter>"));
    assert_eq!(map_input(UiKey::Backspace), legacy("<backspace>"));
    assert_eq!(map_input(UiKey::Esc), UiAction::Quit);
    assert_eq!(map_input(UiKey::Char('Q')), legacy("Q"));
    assert_eq!(map_input(UiKey::Char('S')), UiAction::SaveAndQuit);
    assert_eq!(map_input(UiKey::Char('P')), legacy("P"));
    assert_eq!(map_input(UiKey::Char('!')), legacy("!"));
    assert_eq!(map_input(UiKey::Char('L')), UiAction::LoadSlot);
    assert_eq!(map_input(UiKey::Char('R')), UiAction::Restart);
}

#[test]
fn arrows_and_wait_keys_map_to_moves_and_wait() {
    assert_eq!(
        map_input(UiKey::Up),
        UiAction::Dispatch(ReplayCommand::Move { direction: ReplayDirection::North })
    );
    assert_eq!(
        map_input(UiKey::Down),
        UiAction::Dispatch(ReplayCommand::Move { direction: ReplayDirection::South })
    );
    assert_eq!(
        map_input(UiKey::Left),
        UiAction::Dispatch(ReplayCommand::Move { direction: ReplayDirection::West })
    );
    assert_eq!(
        map_input(UiKey::Right),
        UiAction::Dispatch(ReplayCommand::Move { direction: ReplayDirection::East })
    );
    assert_eq!(map_input(UiKey::Char(' ')), UiAction::Dispatch(ReplayCommand::Wait));
    assert_eq!(map_input(UiKey::Char('.')), UiAction::Dispatch(ReplayCommand::Wait));
    assert_eq!(map_input(UiKey::Char('9')), UiAction::Dispatch(ReplayCommand::Drop { slot: 8 }));
    assert_eq!(map_input(UiKey::Char('N')), UiAction::NewGame);
}

#[test]
fn unmapped_keys_do_nothing() {
    assert_eq!(map_input(UiKey::ThemeCycle), UiAction::Ignore);
    assert_eq!(map_input(UiKey::Mouse), UiAction::Ignore);
    assert_eq!(map_input(UiKey::Ctrl('z')), UiAction::Ignore);
    assert_eq!(map_input(UiKey::Char('\t')), UiAction::Ignore);
}

#[test]
fn ctrl_letters_fold_case() {
    assert_eq!(map_ctrl_legacy('F'), Some("^f".to_string()));
    assert_eq!(map_ctrl_legacy('w'), Some("^w".to_string()));
    assert_eq!(map_ctrl_legacy('a'), None);
}

#[test]
fn uppercase_directional_keys_move_when_no_adjacent_monster() {
    let route = route_key(UiKey::Char('D'), false, false, false, (2, 2), &vec![]);
    assert_eq!(route, KeyRoute::Act(UiAction::Dispatch(ReplayCommand::Move { direction: ReplayDirection::East })));
}

#[test]
fn uppercase_directional_keys_attack_when_adjacent_monster_exists() {
    let route = route_key(UiKey::Char('D'), false, false, false, (2, 2), &vec![(3, 2)]);
    assert_eq!(route, KeyRoute::Act(UiAction::Dispatch(ReplayCommand::Attack { direction: ReplayDirection::East })));
}

#[test]
fn adaptive_capitals_pick_direction_and_target() {
    let monsters = vec![(2, 1), (5, 5)];
    assert_eq!(
        adaptive_directional_command('W', (2, 2), &monsters),
        Some(ReplayCommand::Attack { direction: ReplayDirection::North })
    );
    assert_eq!(
        adaptive_directional_command('X', (2, 2), &monsters),
        Some(ReplayCommand::Move { direction: ReplayDirection::South })
    );
    assert_eq!(
        adaptive_directional_command('A', (2, 2), &monsters),
        Some(ReplayCommand::Move { direction: ReplayDirection::West })
    );
    assert_eq!(adaptive_directional_command('w', (2, 2), &monsters), None);
}

#[test]
fn terminal_continue_key_exits_session() {
    let route = route_key(UiKey::Char('c'), true, false, false, (2, 2), &vec![]);
    assert_eq!(route, KeyRoute::Terminal(TerminalResponse::Quit));
    let notice = terminal_notice(TerminalResponse::Quit).unwrap();
    assert!(notice.contains("Game over acknowledged; returning to launcher"));
}

#[test]
fn terminal_restart_key_restarts_from_bootstrap() {
    let route = route_key(UiKey::Char('r'), true, false, false, (4, 4), &vec![]);
    assert_eq!(route, KeyRoute::Terminal(TerminalResponse::Restart));
    assert_eq!(terminal_notice(TerminalResponse::Restart), None);
}

#[test]
fn terminal_keys_fold_case_and_hint_otherwise() {
    assert_eq!(terminal_response(UiKey::Esc), TerminalResponse::Quit);
    assert_eq!(terminal_response(UiKey::Char('Q')), TerminalResponse::Quit);
    assert_eq!(terminal_response(UiKey::Char('N')), TerminalResponse::Restart);
    assert_eq!(terminal_response(UiKey::Char('L')), TerminalResponse::Load);
    assert_eq!(terminal_response(UiKey::Char('z')), TerminalResponse::Hint);
    assert_eq!(terminal_response(UiKey::Up), TerminalResponse::Ignore);
    assert_eq!(
        terminal_notice(TerminalResponse::Hint),
        Some("Game over: press c/q/esc to continue, r/n to restart, or l to load.")
    );
    assert!(session_end_prompt(true).starts_with("You have died."));
    assert!(session_end_prompt(false).starts_with("Victory complete."));
}

#[test]
fn modal_keys_go_to_the_prompt() {
    assert_eq!(modal_key_action(UiKey::Esc, false), legacy("<esc>"));
    assert_eq!(modal_key_action(UiKey::Char('w'), false), legacy("w"));
    assert_eq!(modal_key_action(UiKey::Ctrl('X'), false), legacy("^x"));
    assert_eq!(modal_key_action(UiKey::Up, false), UiAction::Ignore);
    assert_eq!(
        modal_key_action(UiKey::Up, true),
        UiAction::Dispatch(ReplayCommand::Move { direction: ReplayDirection::North })
    );
    let route = route_key(UiKey::Char('D'), false, true, false, (2, 2), &vec![(3, 2)]);
    assert_eq!(route, KeyRoute::Act(legacy("D")));
    assert_eq!(route_key(UiKey::ThemeCycle, true, true, false, (0, 0), &vec![]), KeyRoute::CycleTheme);
}

#[test]
fn arena_panel_reads_frontend_keys() {
    assert_eq!(arena_key(UiKey::Char('\t')), ArenaKey::Tab);
    assert_eq!(arena_key(UiKey::Char('1')), ArenaKey::Char('1'));
    assert_eq!(arena_key(UiKey::Enter), ArenaKey::Enter);
    assert_eq!(arena_key(UiKey::Left), ArenaKey::Other);
}

#[test]
fn wizard_pending_esc_routes_to_core_cancel_instead_of_quit() {
    let route = route_key(UiKey::Esc, false, true, false, (2, 2), &vec![]);
    assert_eq!(route, KeyRoute::Act(legacy("<esc>")));
    assert_ne!(route, KeyRoute::Act(UiAction::Quit));
}

#[test]
fn site_prompt_locks_directional_input_from_wasd_mapping() {
    let route = route_key(UiKey::Char('w'), false, true, false, (3, 3), &vec![]);
    assert_eq!(route, KeyRoute::Act(legacy("w")));
}

#[test]
fn site_prompt_blocks_arrow_movement_unless_direction_modal() {
    assert_eq!(route_key(UiKey::Up, false, true, false, (3, 3), &vec![]), KeyRoute::Act(UiAction::Ignore));
    assert_eq!(
        route_key(UiKey::Up, false, true, true, (3, 3), &vec![]),
        KeyRoute::Act(UiAction::Dispatch(ReplayCommand::Move { direction: ReplayDirection::North }))
    );
}

#[test]
fn item_prompt_locks_directional_input_from_wasd_mapping() {
    let route = route_key(UiKey::Char('w'), false, true, false, (3, 3), &vec![(3, 2)]);
    assert_eq!(route, KeyRoute::Act(legacy("w")));
}

#[test]
fn uppercase_q_routes_to_core_quit_confirmation_flow() {
    assert_eq!(route_key(UiKey::Char('Q'), false, false, false, (2, 2), &vec![]), KeyRoute::Act(legacy("Q")));
    // With the quit confirmation open, `n` answers the prompt.
    assert_eq!(route_key(UiKey::Char('n'), false, true, false, (2, 2), &vec![]), KeyRoute::Act(legacy("n")));
}

#[test]
fn scripted_session_dispatches_to_core_and_advances_time() {
    assert_eq!(
        route_key(UiKey::Char(' '), false, false, false, (2, 2), &vec![]),
        KeyRoute::Act(UiAction::Dispatch(ReplayCommand::Wait))
    );
}
