use omega_tools::probes::{
    location_cases, location_check, location_seed, service_choice, startup_context_checks, startup_door_check,
    startup_exit_check, startup_service_check, startup_visual_checks, BootstrapProbe, DoorProbe, ExitProbe, LocationProbe,
    ServiceProbe, VisualProbe,
};
use omega_tools::events::GameEvent;
use omega_tools::replay::GridPosition;

fn at(x: i32, y: i32) -> GridPosition {
    GridPosition { x, y }
}

#[test]
fn door_checks() {
    let missing = startup_door_check("content_door_bump_open", &DoorProbe::NoDoor);
    assert!(!missing.passed);
    assert_eq!(missing.details, "no bump-openable closed door found in startup map");
    let c = startup_door_check(
        "tui_door_bump_open",
        &DoorProbe::Stepped { from: at(3, 4), door: at(4, 4), opened: true, moved: true, events: 2 },
    );
    assert!(c.passed);
    assert_eq!(c.details, "from=(3, 4) door=(4, 4) opened=true moved=true events=2");
    let stuck = startup_door_check(
        "bevy_door_bump_open",
        &DoorProbe::Stepped { from: at(3, 4), door: at(4, 4), opened: true, moved: false, events: 1 },
    );
    assert!(!stuck.passed);
}

#[test]
fn service_checks() {
    assert_eq!(service_choice(7, 7), "2");
    assert_eq!(service_choice(3, 7), "1");
    let c = startup_service_check(
        "content_service_is_actionable",
        &ServiceProbe::Stepped {
            aux: 3,
            opened: true,
            changed: true,
            gold_before: 250,
            gold_after: 235,
            bank_before: 0,
            bank_after: 0,
            inventory_before: 1,
            inventory_after: 2,
            environment_before: "City".to_string(),
            environment_after: "City".to_string(),
            choose_events: 4,
        },
    );
    assert!(c.passed);
    assert_eq!(c.details, "aux=3 opened=true changed=true gold 250->235 bank 0->0 inv 1->2 env City->City choose_events=4");
    assert!(!startup_service_check("x", &ServiceProbe::NoService).passed);
}

#[test]
fn exit_checks() {
    let ok = startup_exit_check(
        "content_exit_to_country",
        &ExitProbe::Stepped {
            exit: at(0, 5),
            world: "Countryside".to_string(),
            environment: "Countryside".to_string(),
            semantic: "Country".to_string(),
            events: 1,
        },
    );
    assert!(ok.passed);
    assert_eq!(ok.details, "exit=(0, 5) world=Countryside env=Countryside semantic=Country events=1");
    let city = startup_exit_check(
        "tui_exit_to_country",
        &ExitProbe::Stepped {
            exit: at(0, 5),
            world: "DungeonCity".to_string(),
            environment: "City".to_string(),
            semantic: "City".to_string(),
            events: 0,
        },
    );
    assert!(!city.passed);
    assert_eq!(startup_exit_check("x", &ExitProbe::NoExit).details, "no countryside exit tile found in startup map");
}

#[test]
fn bootstrap_context_checks() {
    let good = BootstrapProbe { spawn: at(62, 20), world: "DungeonCity".to_string(), city_site_id: 1 };
    let off = BootstrapProbe { spawn: at(1, 1), world: "DungeonCity".to_string(), city_site_id: 1 };
    let checks = startup_context_checks("content/maps/city.map", 3, "legacy", at(62, 20), &good, &good, &off);
    assert_eq!(checks.len(), 5);
    assert!(checks[0].passed);
    assert_eq!(checks[0].details, "map_source=content/maps/city.map expected_map_id=3");
    assert_eq!(checks[1].details, "spawn=(62, 20) expected=(62, 20) source=legacy");
    assert_eq!(checks[2].details, "world=DungeonCity city_site_id=1");
    assert!(checks[3].passed);
    assert_eq!(checks[4].id, "bevy_bootstrap_city_context");
    assert!(!checks[4].passed);
    assert_eq!(checks[4].details, "spawn=(1, 1) world=DungeonCity city_site_id=1");
}

#[test]
fn overworld_cases_and_checks() {
    let cases = location_cases();
    assert_eq!(cases.len(), 20);
    assert_eq!(cases[0].id, "city_entry");
    assert_eq!(cases[0].expected_semantic, "City");
    assert_eq!(cases[9].id, "village_2_entry");
    assert_eq!(cases[9].expected_map, 19);
    assert_eq!(cases[9].aux, Some(2));
    assert_eq!(cases[19].id, "temple_6_entry");
    assert_eq!(cases[19].expected_map, 16);
    assert_eq!(location_seed(13), 0x5151_000D);
    let missing = location_check(&cases[9], &LocationProbe::Missing);
    assert_eq!(missing.details, "missing terrain Village aux Some(2)");
    assert_eq!(location_check(&cases[0], &LocationProbe::Missing).details, "missing terrain City aux None");
    let entered = location_check(
        &cases[1],
        &LocationProbe::Entered {
            pos: at(10, 12),
            out_turn: 5,
            out_minutes: 50,
            map: 5,
            environment: "Castle".to_string(),
            semantic: "Site".to_string(),
        },
    );
    assert!(entered.passed);
    assert_eq!(entered.details, "pos=(10, 12) out_turn=5 out_minutes=50 map=5 env=Castle semantic=Site");
}

fn visual_probe() -> VisualProbe {
    VisualProbe {
        expected_start: at(62, 20),
        start: at(62, 20),
        non_void_glyphs: 140,
        walls: 300,
        features: 12,
        render: "+MAP----+ +STATUS--+".to_string(),
        map_source: "content".to_string(),
        spawn_source: "legacy".to_string(),
        hp_before_wait: 20,
        hp_after_wait: 20,
        portcullis_present: true,
        nocitymove_present: true,
        portcullis_walkable: false,
        movement_events: vec![GameEvent::LegacyHandled {
            token: "M".to_string(),
            note: "blocked by NOCITYMOVE".to_string(),
            fully_modeled: true,
        }],
    }
}

#[test]
fn startup_visual_checks_pass_on_a_sound_start() {
    let checks = startup_visual_checks(&visual_probe());
    let ids: Vec<&str> = checks.iter().map(|c| c.id.as_str()).collect();
    assert_eq!(
        ids,
        vec![
            "player_starts_at_legacy_rampart_start",
            "map_window_is_not_void",
            "bevy_projection_has_non_floor_tiles",
            "tui_render_contains_map_panel",
            "canonical_start_safe_initial_state",
            "city_movement_rules_enforced",
        ]
    );
    assert!(checks.iter().all(|c| c.passed));
    assert_eq!(checks[0].details, "expected=(62, 20) actual=(62, 20)");
    assert_eq!(checks[1].details, "non_void_glyph_cells=140");
    assert_eq!(checks[2].details, "wall=300 feature=12");
    assert_eq!(checks[3].details, "bootstrap_source=content spawn_source=legacy");
    assert_eq!(checks[4].details, "hp_before_wait=20 hp_after_wait=20");
    assert_eq!(checks[5].details, "portcullis_present=true nocitymove_present=true");
}

#[test]
fn startup_visual_checks_fail_one_by_one() {
    let mut p = visual_probe();
    p.start = at(1, 1);
    p.non_void_glyphs = 0;
    p.walls = 0;
    p.features = 0;
    p.render = "STATUS".to_string();
    p.hp_after_wait = 17;
    p.movement_events = vec![GameEvent::LegacyHandled {
        token: "M".to_string(),
        note: "blocked by NOCITYMOVE".to_string(),
        fully_modeled: false,
    }];
    let checks = startup_visual_checks(&p);
    assert!(checks.iter().all(|c| !c.passed));
    assert_eq!(checks[0].details, "expected=(62, 20) actual=(1, 1)");
    let mut q = visual_probe();
    q.portcullis_present = false;
    let c = startup_visual_checks(&q);
    assert!(!c[5].passed);
    assert_eq!(c[5].details, "portcullis_present=false nocitymove_present=true");
    let mut w = visual_probe();
    w.portcullis_walkable = true;
    assert!(!startup_visual_checks(&w)[5].passed);
}
