use omega_tools::screens::{
    describe_pending_interaction, interaction_label, status_lines, terminal_lines, terminal_title, PanelPoint,
    PendingPrompts, SessionStatus, SiteKind, StatusFacts, TerminalFacts,
};

fn facts(status: SessionStatus, death: Option<&str>, log: &[&str]) -> TerminalFacts {
    TerminalFacts {
        status,
        death_source: death.map(|s| s.to_string()),
        player_name: "Rodrigo".to_string(),
        mode: "classic".to_string(),
        turn: 12,
        minutes: 72,
        hp: 0,
        max_hp: 20,
        score: -5,
        save_slot: "target/slot.json".to_string(),
        log: log.iter().map(|s| s.to_string()).collect(),
    }
}

#[test]
fn terminal_render_shows_dedicated_death_screen() {
    let f = facts(SessionStatus::Lost, Some("fang"), &["You are defeated."]);
    let screen = format!("{}\n{}", terminal_title(f.status), terminal_lines(&f).join("\n"));
    assert!(screen.contains("DEATH"));
    assert!(screen.contains("You died!"));
    assert!(screen.contains("Killed by fang."));
    assert!(screen.contains("Press c/q/esc to continue"));
}

#[test]
fn terminal_render_shows_death_screen_outside_arena() {
    let f = facts(SessionStatus::Lost, None, &["You are defeated in the wilderness."]);
    let screen = format!("{}\n{}", terminal_title(f.status), terminal_lines(&f).join("\n"));
    assert!(screen.contains("DEATH"));
    assert!(screen.contains("You died!"));
    assert!(screen.contains("Press c/q/esc to continue"));
}

#[test]
fn terminal_lines_list_particulars_and_recent_log() {
    let log: Vec<String> = (1..=8).map(|i| format!("m{i}")).collect();
    let refs: Vec<&str> = log.iter().map(|s| s.as_str()).collect();
    let f = facts(SessionStatus::Won, Some("ignored"), &refs);
    let lines = terminal_lines(&f);
    assert_eq!(terminal_title(SessionStatus::Won), "VICTORY");
    assert_eq!(lines[0], "You are victorious!");
    assert_eq!(lines[1], "Name: Rodrigo");
    assert_eq!(lines[3], "Turn 12  Time 72m  HP 0/20");
    assert_eq!(lines[4], "Score: -5");
    assert_eq!(lines[8], "Recent log:");
    assert_eq!(lines[9..].to_vec(), vec!["- m3", "- m4", "- m5", "- m6", "- m7", "- m8"]);
    let mut g = facts(SessionStatus::InProgress, None, &[]);
    g.score = i64::MIN;
    let lines = terminal_lines(&g);
    assert_eq!(lines[0], "Session in progress.");
    assert_eq!(lines[4], "Score: -9223372036854775808");
    assert_eq!(lines.len(), 9);
}

#[test]
fn status_panel_surfaces_pending_interaction_hint() {
    let none = PendingPrompts {
        wizard: false,
        spell: false,
        activation: false,
        quit: false,
        talk_direction: false,
        inventory: false,
        item: false,
        targeting: false,
    };
    let label = interaction_label(none, Some(SiteKind::MercGuild), 0);
    assert!(format!("Interaction: {label}").contains("Interaction: merc guild menu"));
    assert_eq!(interaction_label(none, None, 0), "none");
    let quit = PendingPrompts { quit: true, item: true, ..none };
    assert_eq!(interaction_label(quit, Some(SiteKind::Bank), 0), "quit confirmation active");
    assert_eq!(
        describe_pending_interaction(SiteKind::Arena, 2),
        "Rampart Coliseum prompt (1/y fight, 2/n leave)"
    );
    assert_eq!(
        describe_pending_interaction(SiteKind::Arena, 0),
        "Rampart Coliseum prompt (1/e enter, 2/r register, 3/x leave)"
    );
    assert_eq!(describe_pending_interaction(SiteKind::Altar { deity_id: 3 }, 0), "Athena altar menu (1-4, q/x close)");
    assert_eq!(describe_pending_interaction(SiteKind::Altar { deity_id: 9 }, 0), "Unknown altar menu (1-4, q/x close)");
}

fn no_prompts() -> PendingPrompts {
    PendingPrompts {
        wizard: false,
        spell: false,
        activation: false,
        quit: false,
        talk_direction: false,
        inventory: false,
        item: false,
        targeting: false,
    }
}

fn status_facts(modern: bool) -> StatusFacts {
    StatusFacts {
        player_name: "Rodrigo".to_string(),
        mode: if modern { "modern".to_string() } else { "classic".to_string() },
        turn: 12,
        minutes: 75,
        position: PanelPoint { x: 2, y: 3 },
        hp: 18,
        max_hp: 20,
        mana: 7,
        max_mana: 9,
        inventory: 2,
        capacity: 16,
        gold: 250,
        bank_gold: 0,
        food: 5,
        world: "City".to_string(),
        quest: "Active".to_string(),
        status: SessionStatus::InProgress,
        prompts: no_prompts(),
        site: Some(SiteKind::MercGuild),
        arena_rank: 0,
        save_slot: "target/test-omega-tui-status-objective.json".to_string(),
        theme: "Classic".to_string(),
        latest: Some("You feel ready.".to_string()),
        modern,
        objective: Some("Report to the Mercenary Guild.".to_string()),
        marker: Some(PanelPoint { x: 14, y: 5 }),
    }
}

#[test]
fn status_panel_includes_mana_totals() {
    let rendered = status_lines(&status_facts(false)).join("\n");
    assert!(rendered.contains("Mana: "));
    assert!(rendered.contains("Mana: 7/9"));
}

#[test]
fn status_panel_includes_objective_summary_only_for_modern_mode() {
    let classic = status_lines(&status_facts(false)).join("\n");
    assert!(!classic.contains("Objective:"));
    let modern = status_lines(&status_facts(true)).join("\n");
    assert!(modern.contains("Objective:"));
    assert!(modern.contains("Mercenary Guild"));
}

#[test]
fn status_panel_lines_in_order() {
    let lines = status_lines(&status_facts(true));
    assert_eq!(lines.len(), 20);
    assert_eq!(lines[0], "Name: Rodrigo");
    assert_eq!(lines[2], "Turn: 12");
    assert_eq!(lines[3], "Time: 75m");
    assert_eq!(lines[4], "Pos: (2, 3)");
    assert_eq!(lines[5], "HP: 18/20");
    assert_eq!(lines[7], "Inventory: 2/16");
    assert_eq!(lines[8], "Gold/Bank/Food: 250/0/5");
    assert_eq!(lines[11], "State: InProgress");
    assert_eq!(lines[12], "Interaction: merc guild menu (1-4, q/x close)");
    assert_eq!(lines[14], "Theme: Classic (F10 to switch)");
    assert_eq!(lines[17], "Latest: You feel ready.");
    assert_eq!(lines[18], "Objective: Report to the Mercenary Guild.");
    assert_eq!(lines[19], "Objective marker: (14, 5)  \u{394}x=12 \u{394}y=2");
    let mut quiet = status_facts(true);
    quiet.objective = None;
    quiet.marker = None;
    quiet.latest = None;
    let q = status_lines(&quiet);
    assert_eq!(q.len(), 18);
    assert_eq!(q[17], "Objective: No active objective.");
}
