use omega_tools::events::GameEvent;
use omega_tools::panels::{item_line, log_panel_lines, message_tone, pack_line, sorted_names, MessageTone, StepOutcome};
use omega_tools::screens::SessionStatus;

#[test]
fn log_messages_get_tones_by_keyword() {
    assert_eq!(message_tone("The rat hit you for 3 damage."), MessageTone::Danger);
    assert_eq!(message_tone("Be careful: a warning sign."), MessageTone::Warning);
    assert_eq!(message_tone("You picked up a sword."), MessageTone::Success);
    assert_eq!(message_tone("You were defeated after you found gold."), MessageTone::Danger);
    assert_eq!(message_tone("VICTORY"), MessageTone::Plain);
    assert_eq!(message_tone("You wait."), MessageTone::Plain);
}

#[test]
fn inventory_panel_is_deterministic_and_human_readable() {
    assert_eq!(pack_line(2, 20, 7), "Pack: 2/20  Burden: 7");
    assert_eq!(item_line(0, "healing potion", "Potion", "I_HEAL"), "1: healing potion [potion | I_HEAL]");
    assert_eq!(item_line(1, "identify scroll", "Scroll", ""), "2: identify scroll [scroll | no-usef]");
    let ground = vec!["zinc ring".to_string(), "amber ring".to_string(), "zinc ring".to_string()];
    assert_eq!(
        sorted_names(&ground),
        vec!["amber ring".to_string(), "zinc ring".to_string(), "zinc ring".to_string()],
        "ground items should be displayed in a stable lexical order"
    );
    assert_eq!(sorted_names(&sorted_names(&ground)), sorted_names(&ground));
    assert!(sorted_names(&vec![]).is_empty());
}

#[test]
fn log_panel_keeps_chronological_order() {
    let timeline = vec!["first".to_string(), "second".to_string(), "third".to_string()];
    let rendered = log_panel_lines(&timeline, &None).join("\n");
    assert!(rendered.find("first").unwrap_or(usize::MAX) < rendered.find("second").unwrap_or(0));
    assert!(rendered.find("second").unwrap_or(usize::MAX) < rendered.find("third").unwrap_or(0));
}

#[test]
fn log_panel_falls_back_to_the_last_events() {
    let events: Vec<GameEvent> = (1..=10).map(|t| GameEvent::TurnAdvanced { turn: t, minutes: 6 * t }).collect();
    let outcome = StepOutcome { events, status: SessionStatus::Lost };
    let lines = log_panel_lines(&vec![], &Some(outcome));
    assert_eq!(lines.len(), 9);
    assert_eq!(lines[0], "turn advanced: 3 (18m)");
    assert_eq!(lines[7], "turn advanced: 10 (60m)");
    assert_eq!(lines[8], "session status: Lost");
    let running = StepOutcome { events: vec![GameEvent::Waited], status: SessionStatus::InProgress };
    assert_eq!(log_panel_lines(&vec![], &Some(running)), vec!["waited".to_string()]);
    let quiet = StepOutcome { events: vec![], status: SessionStatus::InProgress };
    assert_eq!(log_panel_lines(&vec![], &Some(quiet)), vec!["(no messages)".to_string()]);
    assert_eq!(log_panel_lines(&vec![], &None), vec!["(no messages)".to_string()]);
    let timeline = vec!["You hear a noise.".to_string()];
    let shadowed = StepOutcome { events: vec![GameEvent::Waited], status: SessionStatus::Won };
    assert_eq!(log_panel_lines(&timeline, &Some(shadowed)), timeline);
}
