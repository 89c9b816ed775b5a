use level_editor::geom::{snap_coord, snap_to_grid, Pos, MAX_COORD, MAX_GRID};

#[test]
fn snap_rounds_to_nearest_multiple() {
    assert_eq!(snap_coord(7, 10), 10);
    assert_eq!(snap_coord(4, 10), 0);
    assert_eq!(snap_coord(14, 10), 10);
    assert_eq!(snap_coord(16, 10), 20);
}

#[test]
fn snap_tie_goes_up() {
    assert_eq!(snap_coord(5, 10), 10);
    assert_eq!(snap_coord(15, 10), 20);
    assert_eq!(snap_coord(-5, 10), 0);
    assert_eq!(snap_coord(-15, 10), -10);
}

#[test]
fn snap_negative_coordinates() {
    assert_eq!(snap_coord(-3, 10), 0);
    assert_eq!(snap_coord(-7, 10), -10);
    assert_eq!(snap_coord(-14, 10), -10);
    assert_eq!(snap_coord(-16, 10), -20);
}

#[test]
fn snap_grid_point_is_fixed() {
    assert_eq!(snap_coord(0, 10), 0);
    assert_eq!(snap_coord(30, 10), 30);
    assert_eq!(snap_coord(-40, 10), -40);
    assert_eq!(snap_coord(123, 1), 123);
}

#[test]
fn snap_odd_grid() {
    assert_eq!(snap_coord(3, 5), 5);
    assert_eq!(snap_coord(2, 5), 0);
    assert_eq!(snap_coord(-2, 5), 0);
    assert_eq!(snap_coord(-3, 5), -5);
    assert_eq!(snap_coord(7, 3), 6);
    assert_eq!(snap_coord(8, 3), 9);
}

#[test]
fn snap_extreme_coordinates() {
    assert_eq!(snap_coord(MAX_COORD, 1), MAX_COORD);
    assert_eq!(snap_coord(-MAX_COORD, 1), -MAX_COORD);
    // 1_000_000_000 = 1000 * 1_000_000, already on the largest grid.
    assert_eq!(snap_coord(MAX_COORD, MAX_GRID), MAX_COORD);
    assert_eq!(snap_coord(MAX_COORD - 1, MAX_GRID), MAX_COORD);
    assert_eq!(snap_coord(-MAX_COORD + 1, MAX_GRID), -MAX_COORD);
}

#[test]
fn snap_is_idempotent_on_samples() {
    let samples: [i64; 7] = [-1_000_000_000, -123_456, -7, 0, 5, 999_999, 1_000_000_000];
    let grids: [i64; 4] = [1, 2, 7, 1000];
    for &x in samples.iter() {
        for &g in grids.iter() {
            let once = snap_coord(x, g);
            assert_eq!(once % g, 0);
            assert_eq!(snap_coord(once, g), once);
        }
    }
}

#[test]
fn snap_position_snaps_both_coordinates() {
    let p = snap_to_grid(Pos { x: 7, y: -3 }, 10);
    assert_eq!(p, Pos { x: 10, y: 0 });
    let q = snap_to_grid(Pos { x: 0, y: 0 }, 25);
    assert_eq!(q, Pos { x: 0, y: 0 });
    let r = snap_to_grid(Pos { x: 37, y: 63 }, 25);
    assert_eq!(r, Pos { x: 25, y: 75 });
}
