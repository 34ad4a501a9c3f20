use omega_tools::grid::{
    closed_door_bump_positions, direction_between, find_cell_position, glyph_counts, merc_marker_plan,
    non_void_cells, service_tile, visible_map_window, MarkerPlan,
};
use omega_tools::replay::ReplayDirection;

fn rows(v: &[&str]) -> Vec<Vec<char>> {
    v.iter().map(|s| s.chars().collect()).collect()
}

#[test]
fn cell_positions_by_width() {
    assert_eq!(find_cell_position(&vec![false, false, false, false, true], 3), Some((1, 1)));
    assert_eq!(find_cell_position(&vec![false, false], 3), None);
    assert_eq!(service_tile(&vec![0, 7, 0, 5, 9], 2, &vec![9, 5, 7]), Some((9, (0, 2))));
    assert_eq!(service_tile(&vec![0, 7, 0, 5], 2, &vec![9, 5, 7]), Some((5, (1, 1))));
    assert_eq!(service_tile(&vec![0, 0], 2, &vec![9]), None);
}

#[test]
fn cardinal_directions_between_neighbours() {
    assert_eq!(direction_between((1, 1), (2, 1)), Some(ReplayDirection::East));
    assert_eq!(direction_between((1, 1), (0, 1)), Some(ReplayDirection::West));
    assert_eq!(direction_between((1, 1), (1, 2)), Some(ReplayDirection::South));
    assert_eq!(direction_between((1, 1), (1, 0)), Some(ReplayDirection::North));
    assert_eq!(direction_between((1, 1), (2, 2)), None);
}

#[test]
fn door_bump_prefers_east_neighbour() {
    let glyphs = rows(&["#.#", "#-.", "###"]);
    let walk = vec![vec![false, true, false], vec![false, false, true], vec![false, false, false]];
    assert_eq!(closed_door_bump_positions(&glyphs, &walk, 3, 3), Some(((2, 1), (1, 1))));
    let walk_none = vec![vec![false; 3]; 3];
    assert_eq!(closed_door_bump_positions(&glyphs, &walk_none, 3, 3), None);
}

#[test]
fn map_window_marks_player_monsters_and_items() {
    let glyphs = rows(&["abcde", "fghij", "klmno", "pqrst"]);
    let window = visible_map_window((2, 1), 5, 4, &vec![(1, 0)], &vec![(3, 2)], &glyphs, 2, 2);
    assert_eq!(window, vec!["mcd".to_string(), "g@i".to_string(), "lm*".to_string()]);
    let edge = visible_map_window((0, 0), 5, 4, &vec![], &vec![], &glyphs, 2, 2);
    assert_eq!(edge, vec!["@b".to_string(), "fg".to_string()]);
}

#[test]
fn window_glyph_tallies() {
    let window = vec!["#.#".to_string(), "@#m".to_string()];
    let counts = glyph_counts(&window);
    assert_eq!(counts, vec![(vec!['#'], 3), (vec!['.'], 1), (vec!['@'], 1), (vec!['m'], 1)]);
    assert_eq!(non_void_cells(&window), 3);
}

#[test]
fn marker_plan_resets_or_marks_middle() {
    assert_eq!(
        merc_marker_plan(&vec![0, 0, 0], 2, 2, 9, 0),
        MarkerPlan { reset_len: Some(4), mark_index: Some(2) }
    );
    assert_eq!(merc_marker_plan(&vec![0, 9, 0, 0], 2, 2, 9, 0), MarkerPlan { reset_len: None, mark_index: None });
    assert_eq!(merc_marker_plan(&vec![0, 0, 0, 0, 0, 0], 3, 2, 9, 0), MarkerPlan { reset_len: None, mark_index: Some(3) });
}
