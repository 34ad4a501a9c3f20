use omega_tools::mapview::{map_window, objective_route, square_char, MapSquare, MapWindow};

fn floor() -> MapSquare {
    MapSquare {
        cursor: false,
        impact: false,
        trail: false,
        player: false,
        monster: false,
        item: false,
        objective: false,
        route: false,
        glyph: '.',
    }
}

#[test]
fn map_window_centres_and_clamps() {
    assert_eq!(map_window(80, 40, 100, 100, 50, 50), MapWindow { min_x: 10, min_y: 30, max_x: 89, max_y: 69 });
    assert_eq!(map_window(80, 40, 100, 100, 2, 98), MapWindow { min_x: 0, min_y: 60, max_x: 79, max_y: 99 });
    assert_eq!(map_window(20, 12, 5, 5, 2, 2), MapWindow { min_x: 0, min_y: 0, max_x: 4, max_y: 4 });
    assert_eq!(map_window(0, 0, 9, 5, 4, 2), MapWindow { min_x: 4, min_y: 2, max_x: 4, max_y: 2 });
}

#[test]
fn objective_route_dots_every_third_square() {
    assert_eq!(objective_route((0, 0), (9, 0)), vec![(3, 0), (6, 0)]);
    assert_eq!(objective_route((0, 0), (3, 0)), vec![]);
    assert_eq!(objective_route((2, 2), (2, 2)), vec![]);
    assert_eq!(objective_route((0, 0), (7, 7)), vec![(3, 3), (6, 6)]);
}

#[test]
fn square_markers_take_precedence_in_order() {
    assert_eq!(square_char(MapSquare { cursor: true, player: true, ..floor() }), 'X');
    assert_eq!(square_char(MapSquare { impact: true, trail: true, ..floor() }), '!');
    assert_eq!(square_char(MapSquare { trail: true, player: true, ..floor() }), ':');
    assert_eq!(square_char(MapSquare { player: true, monster: true, ..floor() }), '@');
    assert_eq!(square_char(MapSquare { monster: true, item: true, ..floor() }), 'm');
    assert_eq!(square_char(MapSquare { item: true, objective: true, ..floor() }), '*');
    assert_eq!(square_char(MapSquare { objective: true, route: true, ..floor() }), 'o');
    assert_eq!(square_char(MapSquare { objective: true, glyph: '#', ..floor() }), '#');
    assert_eq!(square_char(MapSquare { route: true, ..floor() }), ':');
    assert_eq!(square_char(MapSquare { route: true, glyph: '+', ..floor() }), '+');
    assert_eq!(square_char(floor()), '.');
}
