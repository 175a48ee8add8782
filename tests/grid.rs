use gameboard::grid::{spawn_grid, Cell, Grid, PixelPos};

fn board() -> Grid {
    Grid::new(20, 20, 32, 32)
}

#[test]
fn clamp_keeps_cell_on_board() {
    let g = board();
    for &(x, y) in &[(0, 0), (19, 19), (7, 3), (0, 19)] {
        assert_eq!(g.clamp(Cell { x, y }), Cell { x, y });
    }
}

#[test]
fn clamp_saturates_off_board_cells() {
    let g = board();
    assert_eq!(g.clamp(Cell { x: -5, y: 25 }), Cell { x: 0, y: 19 });
    assert_eq!(g.clamp(Cell { x: 20, y: -1 }), Cell { x: 19, y: 0 });
    assert_eq!(g.clamp(Cell { x: i64::MIN, y: i64::MAX }), Cell { x: 0, y: 19 });
    for &(x, y) in &[(-1, -1), (100, 3), (4, 20), (i64::MAX, i64::MIN)] {
        assert!(g.is_within_bounds(g.clamp(Cell { x, y })));
    }
}

#[test]
fn bounds_check_edges() {
    let g = Grid::new(3, 2, 10, 10);
    assert!(g.is_within_bounds(Cell { x: 0, y: 0 }));
    assert!(g.is_within_bounds(Cell { x: 2, y: 1 }));
    assert!(!g.is_within_bounds(Cell { x: 3, y: 1 }));
    assert!(!g.is_within_bounds(Cell { x: 2, y: 2 }));
    assert!(!g.is_within_bounds(Cell { x: -1, y: 0 }));
}

#[test]
fn map_position_is_cell_center() {
    let g = board();
    assert_eq!(g.calculate_map_position(Cell { x: 0, y: 0 }), PixelPos { x: 16, y: 16 });
    assert_eq!(g.calculate_map_position(Cell { x: 3, y: 5 }), PixelPos { x: 112, y: 176 });
    assert_eq!(g.calculate_map_position(Cell { x: -1, y: 0 }), PixelPos { x: -16, y: 16 });
    let odd = Grid::new(4, 4, 5, 7);
    assert_eq!(odd.calculate_map_position(Cell { x: 2, y: 1 }), PixelPos { x: 12, y: 10 });
}

#[test]
fn grid_coordinates_floor_divide() {
    let g = board();
    assert_eq!(g.calculate_grid_coordinates(PixelPos { x: 0, y: 31 }), Cell { x: 0, y: 0 });
    assert_eq!(g.calculate_grid_coordinates(PixelPos { x: 32, y: 100 }), Cell { x: 1, y: 3 });
    assert_eq!(g.calculate_grid_coordinates(PixelPos { x: -1, y: -32 }), Cell { x: -1, y: -1 });
    assert_eq!(g.calculate_grid_coordinates(PixelPos { x: -33, y: 700 }), Cell { x: -2, y: 21 });
}

#[test]
fn pixel_round_trip_stays_within_a_cell() {
    let g = Grid::new(20, 20, 32, 24);
    for &(x, y) in &[(0, 0), (31, 23), (-1, -1), (45, -70), (1000, 999), (-640, 5)] {
        let back = g.calculate_map_position(g.calculate_grid_coordinates(PixelPos { x, y }));
        assert!((back.x - x).abs() < 32);
        assert!((back.y - y).abs() < 24);
    }
}

#[test]
fn index_is_row_major_on_board_only() {
    let g = Grid::new(20, 10, 32, 32);
    assert_eq!(g.as_index(Cell { x: 0, y: 0 }), Some(0));
    assert_eq!(g.as_index(Cell { x: 3, y: 2 }), Some(43));
    assert_eq!(g.as_index(Cell { x: 19, y: 9 }), Some(199));
    assert_eq!(g.as_index(Cell { x: 20, y: 0 }), None);
    assert_eq!(g.as_index(Cell { x: 0, y: -1 }), None);
}

#[test]
fn spawn_grid_lists_cells_row_by_row() {
    let g = Grid::new(3, 2, 32, 32);
    let cells = spawn_grid(&g);
    let expected: Vec<Cell> = vec![
        Cell { x: 0, y: 0 },
        Cell { x: 1, y: 0 },
        Cell { x: 2, y: 0 },
        Cell { x: 0, y: 1 },
        Cell { x: 1, y: 1 },
        Cell { x: 2, y: 1 },
    ];
    assert_eq!(cells, expected);
    assert_eq!(spawn_grid(&Grid::new(20, 20, 32, 32)).len(), 400);
}
