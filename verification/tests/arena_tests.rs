use omega_tools::arena::{
    ai_paused_message, cleared_message, fire_message, hazard_effect, monster_stats, spawn_position,
    spawned_hazard_message, spawned_item_message, spawned_monster_message, ArenaAction, ArenaEffect, ArenaKey,
    ArenaUi, BrushMode, SpawnStats, SpawnerCategory,
};

#[test]
fn arena_opens_with_monster_catalog_and_tools_on() {
    let ui = ArenaUi::new();
    assert_eq!(ui.brush_mode, BrushMode::Off);
    assert!(ui.tooling_enabled);
    assert_eq!(ui.spawner_catalog, vec!["rat".to_string(), "goblin".to_string(), "ogre".to_string()]);
    assert_eq!(ui.item_catalog.len(), 5);
    assert_eq!(ui.hazard_catalog.len(), 2);
    assert!(ui.event_log.is_empty());
}

#[test]
fn backtick_toggles_tools_and_blocks_other_keys() {
    let mut ui = ArenaUi::new();
    let (action, effect) = ui.handle_arena_input(ArenaKey::Char('`'), (3, 4), false);
    assert_eq!(action, ArenaAction::Consumed);
    assert_eq!(effect, ArenaEffect::Nothing);
    assert!(!ui.tooling_enabled);
    assert_eq!(ui.event_log, vec!["Test Ground controls disabled.".to_string()]);
    let (action, effect) = ui.handle_arena_input(ArenaKey::Char('1'), (3, 4), false);
    assert_eq!(action, ArenaAction::Ignore);
    assert_eq!(effect, ArenaEffect::Nothing);
    assert_eq!(ui.event_log.len(), 1);
    ui.handle_arena_input(ArenaKey::Char('`'), (3, 4), false);
    assert_eq!(ui.event_log.last().unwrap(), "Test Ground controls enabled.");
}

#[test]
fn catastrophes_and_snapshots_become_effects() {
    let mut ui = ArenaUi::new();
    assert_eq!(ui.handle_arena_input(ArenaKey::Char('1'), (3, 4), false).1, ArenaEffect::GreatFlood { x: 3, y: 4 });
    assert_eq!(ui.handle_arena_input(ArenaKey::Char('2'), (3, 4), false).1, ArenaEffect::ForestFire { x: 3, y: 4 });
    assert_eq!(ui.handle_arena_input(ArenaKey::Char('5'), (3, 4), false).1, ArenaEffect::Doomsday);
    assert_eq!(ui.handle_arena_input(ArenaKey::Char('r'), (3, 4), false).1, ArenaEffect::RestoreSnapshot);
    assert_eq!(ui.event_log.last().unwrap(), "No snapshots to restore.");
    ui.handle_arena_input(ArenaKey::Char('r'), (3, 4), true);
    assert_eq!(ui.event_log.last().unwrap(), "Snapshot restored.");
    ui.handle_arena_input(ArenaKey::Char('t'), (3, 4), true);
    assert!(ui.turret_active);
    assert_eq!(ui.event_log.last().unwrap(), "Turret mode: ON");
}

#[test]
fn event_log_keeps_newest_twenty() {
    let mut ui = ArenaUi::new();
    for i in 0..25 {
        ui.log_event(&format!("m{}", i));
    }
    assert_eq!(ui.event_log.len(), 20);
    assert_eq!(ui.event_log[0], "m5");
    assert_eq!(ui.event_log[19], "m24");
}

#[test]
fn selection_moves_within_catalog_and_enter_spawns() {
    let mut ui = ArenaUi::new();
    ui.handle_arena_input(ArenaKey::Up, (0, 0), false);
    assert_eq!(ui.spawner_selected, 0);
    for _ in 0..5 {
        ui.handle_arena_input(ArenaKey::Down, (0, 0), false);
    }
    assert_eq!(ui.spawner_selected, 2);
    let (action, _) = ui.handle_arena_input(ArenaKey::Enter, (0, 0), false);
    assert_eq!(
        action,
        ArenaAction::SpawnMonster {
            name: "ogre".to_string(),
            stats: SpawnStats { hp: 20, max_hp: 20, attack_min: 3, attack_max: 6, defense: 2, weight: 80 },
        }
    );
    ui.handle_arena_input(ArenaKey::Tab, (0, 0), false);
    assert_eq!(ui.spawner_category, SpawnerCategory::Item);
    ui.handle_arena_input(ArenaKey::Down, (0, 0), false);
    let (action, _) = ui.handle_arena_input(ArenaKey::Enter, (0, 0), false);
    assert_eq!(action, ArenaAction::SpawnItem { name: "buckler".to_string() });
    ui.handle_arena_input(ArenaKey::Tab, (0, 0), false);
    let (action, _) = ui.handle_arena_input(ArenaKey::Enter, (0, 0), false);
    assert_eq!(action, ArenaAction::SpawnHazard { effect_id: "poison".to_string(), damage: 6 });
    ui.handle_arena_input(ArenaKey::Tab, (0, 0), false);
    assert_eq!(ui.spawner_category, SpawnerCategory::Monster);
}

#[test]
fn brush_and_session_keys() {
    let mut ui = ArenaUi::new();
    assert_eq!(ui.handle_arena_input(ArenaKey::Char('w'), (0, 0), false).0, ArenaAction::Consumed);
    assert_eq!(ui.brush_mode, BrushMode::Water);
    assert_eq!(ui.handle_arena_input(ArenaKey::Char('m'), (0, 0), false).0, ArenaAction::ClearMonsters);
    assert_eq!(ui.handle_arena_input(ArenaKey::Char('p'), (0, 0), false).0, ArenaAction::ToggleAiPaused);
    assert_eq!(ui.handle_arena_input(ArenaKey::Char('0'), (0, 0), false).0, ArenaAction::ResetArenaFixture);
    assert_eq!(ui.handle_arena_input(ArenaKey::Char('z'), (0, 0), false).0, ArenaAction::Ignore);
    assert_eq!(ui.handle_arena_input(ArenaKey::Esc, (0, 0), false).0, ArenaAction::Ignore);
    assert_eq!(ui.paint_target(false, true, 12, 7, 10, 5, 80, 40), Some((2, 2)));
    assert_eq!(ui.paint_target(true, true, 12, 7, 10, 5, 80, 40), None);
    assert_eq!(ui.paint_target(false, true, 5, 3, 10, 5, 80, 40), Some((0, 0)));
    assert_eq!(ui.paint_target(false, true, 200, 7, 10, 5, 80, 40), None);
    ui.handle_arena_input(ArenaKey::Char('n'), (0, 0), false);
    assert_eq!(ui.paint_target(false, true, 12, 7, 10, 5, 80, 40), None);
}

#[test]
fn catalog_stats_and_messages() {
    assert_eq!(monster_stats(&"rat".to_string()).hp, 6);
    assert_eq!(monster_stats(&"dragon".to_string()).weight, 40);
    assert_eq!(hazard_effect(&"fire trap".to_string()), ("fire".to_string(), 8));
    assert_eq!(hazard_effect(&"pit".to_string()), ("poison".to_string(), 4));
    assert_eq!(spawn_position((5, 5), (false, false, true, true)), (5, 4));
    assert_eq!(spawn_position((5, 5), (false, false, false, false)), (5, 5));
    assert_eq!(spawned_monster_message(&"rat".to_string(), 6, -1), "Spawned rat at (6, -1).");
    assert_eq!(spawned_item_message(&"buckler".to_string(), 2, 3), "Spawned item buckler at (2, 3).");
    assert_eq!(fire_message(true, 1, 2), "Ignited tile at (1, 2).");
    assert_eq!(fire_message(false, 1, 2), "Fire spawn failed at (1, 2).");
    assert_eq!(spawned_hazard_message(&"poison".to_string(), 7, 1, 2), "Spawned hazard poison (id 7) at (1, 2).");
    assert_eq!(cleared_message(3, true), "Cleared 3 monster(s).");
    assert_eq!(cleared_message(0, false), "Cleared 0 item(s).");
    assert_eq!(ai_paused_message(true), "Monster turns paused.");
}

#[test]
fn controls_panel_text() {
    let mut ui = ArenaUi::new();
    let lines = ui.catastrophe_lines();
    assert_eq!(lines.len(), 9);
    assert_eq!(lines[2], "[5] DOOMSDAY");
    assert_eq!(lines[3], "");
    assert_eq!(lines[7], "[T] Turret: OFF");
    assert_eq!(lines[8], "[`] Tooling: ON");
    let (title, list, selected) = ui.spawner_view();
    assert_eq!(title, "MONSTER SPAWNER [TAB]");
    assert_eq!(list.len(), 3);
    assert_eq!(selected, 0);
    assert_eq!(ui.log_lines(), vec!["[L] Logs (collapsed)".to_string()]);
    ui.handle_arena_input(ArenaKey::Char('l'), (0, 0), false);
    for i in 0..12 {
        ui.log_event(&format!("e{i}"));
    }
    let shown = ui.log_lines();
    assert_eq!(shown.len(), 11);
    assert_eq!(shown[0], "--- EVENT LOG ---");
    assert_eq!(shown[1], "e11");
    assert_eq!(shown[10], "e2");
    ui.handle_arena_input(ArenaKey::Tab, (0, 0), false);
    assert_eq!(ui.spawner_view().0, "ITEM SPAWNER [TAB]");
}

#[test]
fn entity_counts_start_at_zero_and_follow_updates() {
    let mut ui = ArenaUi::new();
    assert_eq!((ui.projectile_count, ui.particle_count), (0, 0));
    ui.update_entity_counts(3, 41);
    assert_eq!((ui.projectile_count, ui.particle_count), (3, 41));
    assert!(ui.event_log.is_empty());
    assert!(ui.tooling_enabled);
}
