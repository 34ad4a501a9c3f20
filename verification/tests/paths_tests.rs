use omega_tools::paths::line_path;

#[test]
fn line_path_follows_bresenham() {
    assert_eq!(line_path((0, 0), (3, 1)), vec![(0, 0), (1, 0), (2, 1), (3, 1)]);
    assert_eq!(line_path((2, 2), (2, 2)), vec![(2, 2)]);
    assert_eq!(line_path((0, 0), (-2, -2)), vec![(0, 0), (-1, -1), (-2, -2)]);
    assert_eq!(line_path((1, 5), (1, 2)), vec![(1, 5), (1, 4), (1, 3), (1, 2)]);
}

#[test]
fn line_path_spans_the_whole_i32_range() {
    let p = line_path((i32::MIN, 0), (i32::MIN + 2, 0));
    assert_eq!(p, vec![(i32::MIN, 0), (i32::MIN + 1, 0), (i32::MIN + 2, 0)]);
    let steep = line_path((0, 0), (1, 4));
    assert_eq!(steep.len(), 5);
    assert_eq!(steep[0], (0, 0));
    assert_eq!(steep[4], (1, 4));
}
