use omega_tools::events::{event_attacked, event_kind, format_event, monster_attacked, GameEvent};
use omega_tools::replay::GridPosition;

#[test]
fn event_kind_maps_expected_names() {
    assert_eq!(event_kind(&GameEvent::Waited), "waited");
    assert_eq!(event_kind(&GameEvent::NoItemToPickUp), "no_item_to_pick_up");
}

#[test]
fn event_kinds_of_events_with_fields() {
    assert_eq!(event_kind(&GameEvent::MonsterDefeated { monster_id: 3 }), "monster_defeated");
    assert_eq!(
        event_kind(&GameEvent::LegacyHandled { token: "M".to_string(), note: String::new(), fully_modeled: true }),
        "legacy_handled"
    );
    assert_eq!(event_kind(&GameEvent::TurnAdvanced { turn: 1, minutes: 6 }), "turn_advanced");
}

#[test]
fn log_lines_of_events() {
    let a = GridPosition { x: 1, y: 2 };
    let b = GridPosition { x: 2, y: -1 };
    assert_eq!(format_event(&GameEvent::Waited), "waited");
    assert_eq!(format_event(&GameEvent::Moved { from: a, to: b }), "moved: (1, 2) -> (2, -1)");
    assert_eq!(format_event(&GameEvent::MoveBlocked { target: b }), "blocked: (2, -1)");
    assert_eq!(
        format_event(&GameEvent::Attacked { monster_id: 7, damage: 4, remaining_hp: -2 }),
        "hit monster#7 for 4 (hp -2)"
    );
    assert_eq!(
        format_event(&GameEvent::MonsterAttacked { monster_id: 2, damage: 6, remaining_hp: 24 }),
        "monster#2 hit you for 6 (hp 24)"
    );
    assert_eq!(
        format_event(&GameEvent::MonsterMoved { monster_id: 2, from: a, to: b }),
        "monster#2 moved (1, 2) -> (2, -1)"
    );
    assert_eq!(format_event(&GameEvent::MonsterDefeated { monster_id: 9 }), "monster#9 defeated");
    assert_eq!(
        format_event(&GameEvent::CommandIgnoredTerminal { status: "Lost".to_string() }),
        "command ignored (Lost)"
    );
    assert_eq!(format_event(&GameEvent::PickedUp { item_id: 5, name: "arrow".to_string() }), "picked arrow#5");
    assert_eq!(format_event(&GameEvent::InventoryFull { capacity: 16 }), "inventory full (16)");
    assert_eq!(
        format_event(&GameEvent::LegacyHandled {
            token: "f".to_string(),
            note: "Fire which item?".to_string(),
            fully_modeled: true
        }),
        "legacy `f`: Fire which item?"
    );
    assert_eq!(
        format_event(&GameEvent::EconomyUpdated { source: "bank".to_string(), gold: 10, bank_gold: 250 }),
        "economy `bank` gold=10 bank=250"
    );
    assert_eq!(
        format_event(&GameEvent::ProgressionUpdated { guild_rank: 2, priest_rank: 0, alignment: "Lawful".to_string() }),
        "progression g2/p0 Lawful"
    );
    assert_eq!(
        format_event(&GameEvent::EndingResolved { ending: "Victory".to_string(), score: 1200, high_score_eligible: true }),
        "ending Victory score=1200 eligible=true"
    );
    assert_eq!(
        format_event(&GameEvent::ActionPointsSpent { cost: 100, budget_per_turn: 100, total_spent: 300 }),
        "ap +100/100 total=300"
    );
    assert_eq!(
        format_event(&GameEvent::StatusTick { effect_id: "poison".to_string(), magnitude: -1, remaining_turns: 3 }),
        "status `poison` tick -1 (remaining 3)"
    );
    assert_eq!(format_event(&GameEvent::TurnAdvanced { turn: 12, minutes: 60 }), "turn advanced: 12 (60m)");
}

#[test]
fn attack_tests_over_event_lists() {
    let quiet = vec![GameEvent::Waited, GameEvent::TurnAdvanced { turn: 1, minutes: 6 }];
    assert!(!event_attacked(&quiet));
    assert!(!monster_attacked(&quiet));
    let hit = vec![GameEvent::Waited, GameEvent::Attacked { monster_id: 1, damage: 3, remaining_hp: 9 }];
    assert!(event_attacked(&hit));
    let kill = vec![GameEvent::MonsterDefeated { monster_id: 1 }];
    assert!(event_attacked(&kill));
    let bitten = vec![GameEvent::MonsterAttacked { monster_id: 1, damage: 3, remaining_hp: 9 }];
    assert!(!event_attacked(&bitten));
    assert!(monster_attacked(&bitten));
}
