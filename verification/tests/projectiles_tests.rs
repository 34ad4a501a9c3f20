use omega_tools::events::GameEvent;
use omega_tools::projectiles::{
    arrow_fire_flow_check, arrow_targeting_check, crossbow_load_check, crossbow_unload_check, fire_prompt_check,
    los_block_check, monster_projectile_check, spell_commit_check, targeting_cancel_check, targeting_modal_check,
    BoltShot, ClockReading,
};

fn hit() -> GameEvent {
    GameEvent::Attacked { monster_id: 1, damage: 5, remaining_hp: 10 }
}

fn clock(turn: u64, minutes: u64) -> ClockReading {
    ClockReading { turn, minutes }
}

#[test]
fn fire_prompt_passes_only_without_time_or_attack() {
    let c = fire_prompt_check(true, 0, &vec![]);
    assert_eq!(c.id, "fire_command_opens_item_prompt");
    assert!(c.passed);
    assert_eq!(c.details, "pending_item_prompt=true minutes=0 attacked_events=false");
    assert!(!fire_prompt_check(true, 5, &vec![]).passed);
    assert!(!fire_prompt_check(false, 0, &vec![]).passed);
    let attacked = fire_prompt_check(true, 0, &vec![hit()]);
    assert!(!attacked.passed);
    assert_eq!(attacked.details, "pending_item_prompt=true minutes=0 attacked_events=true");
}

#[test]
fn targeting_modal_and_cancel() {
    let c = targeting_modal_check(true, clock(3, 30), clock(3, 30), &vec![]);
    assert!(c.passed);
    assert_eq!(c.details, "pending_targeting=true turn=3 minutes=30 attacked=false");
    assert!(!targeting_modal_check(true, clock(3, 30), clock(4, 30), &vec![]).passed);
    let cancel = targeting_cancel_check(false, clock(3, 30), clock(3, 30));
    assert_eq!(cancel.id, "targeting_cancel_is_non_advancing");
    assert!(cancel.passed);
    assert_eq!(cancel.details, "pending_targeting=false turn=3 minutes=30");
    assert!(!targeting_cancel_check(true, clock(3, 30), clock(3, 30)).passed);
}

#[test]
fn portcullis_blocks_line_of_sight() {
    let c = los_block_check("projectile_los_blocks_on_portcullis", &vec![GameEvent::Waited], 12, 12);
    assert!(c.passed);
    assert_eq!(c.details, "attacked=false hp_before=12 hp_after=12");
    let through = los_block_check("projectile_los_block_smoke", &vec![hit()], 12, 7);
    assert_eq!(through.id, "projectile_los_block_smoke");
    assert!(!through.passed);
    assert_eq!(through.details, "attacked=true hp_before=12 hp_after=7");
}

#[test]
fn monster_projectile_needs_blocked_log() {
    let log = vec!["The warlock casts.".to_string(), "The bolt is blocked by the portcullis.".to_string()];
    let c = monster_projectile_check(30, 30, &vec![GameEvent::Waited], &log);
    assert!(c.passed);
    assert_eq!(c.details, "hp_before=30 hp_after=30 attacked_events=false blocked_log=true");
    assert!(!monster_projectile_check(30, 30, &vec![], &vec!["quiet".to_string()]).passed);
    let bitten = vec![GameEvent::MonsterAttacked { monster_id: 1, damage: 6, remaining_hp: 24 }];
    assert!(!monster_projectile_check(30, 24, &bitten, &log).passed);
}

#[test]
fn crossbow_loading() {
    let c = crossbow_load_check(1, 1, false, 5);
    assert!(c.passed);
    assert_eq!(c.details, "crossbow_aux=1 loaded=1 pending_targeting=false minutes=5");
    assert!(!crossbow_load_check(0, 1, false, 5).passed);
    assert!(!crossbow_load_check(1, 1, false, 4).passed);
}

#[test]
fn crossbow_unloading_takes_the_first_unloading_shot() {
    let shots = vec![
        BoltShot { seed: 0xAB10, events: vec![GameEvent::Waited], weapon_aux: 1 },
        BoltShot { seed: 0xAB11, events: vec![hit()], weapon_aux: 0 },
        BoltShot { seed: 0xAB12, events: vec![hit()], weapon_aux: 0 },
    ];
    let c = crossbow_unload_check(&shots, 0);
    assert_eq!(c.id, "loaded_crossbow_bolt_hit_unloads_weapon");
    assert!(c.passed);
    assert_eq!(c.details, "seed=43793 attacked=true weapon_aux=0");
    let misses = vec![
        BoltShot { seed: 1, events: vec![], weapon_aux: 1 },
        BoltShot { seed: 2, events: vec![hit()], weapon_aux: 1 },
    ];
    let m = crossbow_unload_check(&misses, 0);
    assert!(!m.passed);
    assert_eq!(m.details, "seed=2 attacked=true weapon_aux=1");
    let none = crossbow_unload_check(&vec![], 0);
    assert!(!none.passed);
    assert_eq!(none.details, "");
}

#[test]
fn arrow_targeting_resolves() {
    let c = arrow_targeting_check(&vec![hit()], true, 5);
    assert!(c.passed);
    assert_eq!(c.details, "attacked=true pending_targeting=true minutes=5");
    assert!(arrow_targeting_check(&vec![], false, 5).passed);
    assert!(!arrow_targeting_check(&vec![], true, 0).passed);
}

#[test]
fn smoke_clock_steps() {
    let flow = arrow_fire_flow_check(clock(0, 0), 0, clock(1, 5), &vec![hit()], false);
    assert_eq!(flow.id, "arrow_fire_flow");
    assert!(flow.passed);
    assert_eq!(flow.details, "open_minutes=0 commit_turn=1 commit_minutes=5 attacked=true");
    assert!(!arrow_fire_flow_check(clock(0, 0), 0, clock(1, 6), &vec![], false).passed);
    assert!(!arrow_fire_flow_check(clock(2, 0), 0, clock(1, 5), &vec![], false).passed);
    let spell = spell_commit_check(clock(4, 40), clock(4, 40), clock(5, 60), &vec![], false);
    assert_eq!(spell.id, "magic_missile_target_then_commit");
    assert!(spell.passed);
    assert_eq!(
        spell.details,
        "select_turn=4 select_minutes=40 commit_turn=5 commit_minutes=60 attacked=false pending_targeting=false"
    );
    assert!(!spell_commit_check(clock(4, 40), clock(4, 41), clock(5, 60), &vec![], false).passed);
    assert!(!spell_commit_check(clock(4, 40), clock(4, 40), clock(5, 60), &vec![], true).passed);
}
