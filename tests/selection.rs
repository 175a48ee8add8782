use gameboard::grid::{Cell, Grid};
use gameboard::session::{Session, StepInput};
use gameboard::tile_cursor::{CursorInput, CursorState, Directions, TileCursor};
use gameboard::unit::{move_unit, select_unit, spawn_squirrel, unit_at, SelectedUnit, Unit, UnitType};

const NONE: Directions = Directions { left: false, right: false, up: false, down: false };
const RIGHT: Directions = Directions { left: false, right: true, up: false, down: false };
const UP: Directions = Directions { left: false, right: false, up: true, down: false };

fn press(d: Directions, confirm: bool) -> StepInput {
    StepInput { cursor: CursorInput { pressed: d, held: d, dt: 16_000 }, confirm }
}

#[test]
fn unit_at_finds_first_in_registry_order() {
    let units = vec![
        Unit::new(Cell { x: 1, y: 1 }, UnitType::Squirrel),
        Unit::new(Cell { x: 2, y: 2 }, UnitType::Squirrel),
        Unit::new(Cell { x: 2, y: 2 }, UnitType::Squirrel),
    ];
    assert_eq!(unit_at(&units, Cell { x: 2, y: 2 }), Some(1));
    assert_eq!(unit_at(&units, Cell { x: 1, y: 1 }), Some(0));
    assert_eq!(unit_at(&units, Cell { x: 0, y: 0 }), None);
    assert_eq!(unit_at(&Vec::new(), Cell { x: 0, y: 0 }), None);
}

#[test]
fn spawn_squirrel_places_at_origin() {
    let mut units = vec![Unit::new(Cell { x: 4, y: 4 }, UnitType::Squirrel)];
    let id = spawn_squirrel(&mut units);
    assert_eq!(id, 1);
    assert_eq!(units[1], Unit { position: Cell { x: 0, y: 0 }, unit_type: UnitType::Squirrel });
}

#[test]
fn confirm_selects_then_repeat_confirm_is_noop() {
    let cursor = TileCursor::new(Cell { x: 0, y: 0 });
    let mut units = vec![Unit::new(Cell { x: 0, y: 0 }, UnitType::Squirrel)];
    let mut selected = SelectedUnit(None);
    let mut state = CursorState { is_hover_a_unit: true, is_select_a_unit: false };
    select_unit(true, &cursor, &units, &mut selected, &mut state);
    assert!(state.is_select_a_unit);
    assert_eq!(selected, SelectedUnit(Some(0)));
    move_unit(true, &cursor, &mut units, &mut selected, &mut state);
    select_unit(true, &cursor, &units, &mut selected, &mut state);
    move_unit(true, &cursor, &mut units, &mut selected, &mut state);
    assert!(state.is_select_a_unit);
    assert_eq!(selected, SelectedUnit(Some(0)));
    assert_eq!(units[0].position, Cell { x: 0, y: 0 });
}

#[test]
fn confirm_while_idle_does_nothing() {
    let cursor = TileCursor::new(Cell { x: 3, y: 3 });
    let mut units = vec![Unit::new(Cell { x: 0, y: 0 }, UnitType::Squirrel)];
    let mut selected = SelectedUnit(None);
    let mut state = CursorState { is_hover_a_unit: false, is_select_a_unit: false };
    select_unit(true, &cursor, &units, &mut selected, &mut state);
    move_unit(true, &cursor, &mut units, &mut selected, &mut state);
    assert_eq!(selected, SelectedUnit(None));
    assert_eq!(state, CursorState { is_hover_a_unit: false, is_select_a_unit: false });
    assert_eq!(units[0].position, Cell { x: 0, y: 0 });
}

#[test]
fn selected_unit_moves_to_cursor_on_confirm() {
    let cursor = TileCursor::new(Cell { x: 3, y: 3 });
    let mut units = vec![Unit::new(Cell { x: 0, y: 0 }, UnitType::Squirrel)];
    let mut selected = SelectedUnit(Some(0));
    let mut state = CursorState { is_hover_a_unit: false, is_select_a_unit: true };
    move_unit(false, &cursor, &mut units, &mut selected, &mut state);
    assert_eq!(units[0].position, Cell { x: 0, y: 0 });
    move_unit(true, &cursor, &mut units, &mut selected, &mut state);
    assert_eq!(units[0].position, Cell { x: 3, y: 3 });
    assert!(!state.is_select_a_unit);
    assert!(state.is_hover_a_unit);
    assert_eq!(selected, SelectedUnit(None));
}

#[test]
fn session_starts_idle_and_hovers_at_once() {
    let mut s = Session::new(Grid::new(20, 20, 32, 32));
    assert_eq!(s.units.len(), 1);
    assert!(!s.state.is_hover_a_unit);
    let r = s.step(press(NONE, false));
    assert_eq!(r, None);
    assert!(s.state.is_hover_a_unit);
    assert!(!s.state.is_select_a_unit);
}

#[test]
fn session_select_move_deselect() {
    let mut s = Session::new(Grid::new(20, 20, 32, 32));
    s.step(press(NONE, true));
    assert!(s.state.is_select_a_unit);
    assert_eq!(s.selected, SelectedUnit(Some(0)));
    s.step(press(NONE, true));
    assert!(s.state.is_select_a_unit);
    for _ in 0..3 {
        s.step(press(RIGHT, false));
        s.step(press(UP, false));
    }
    assert_eq!(s.cursor.position, Cell { x: 3, y: 3 });
    assert!(s.state.is_select_a_unit);
    s.step(press(NONE, true));
    assert_eq!(s.units[0].position, Cell { x: 3, y: 3 });
    assert!(!s.state.is_select_a_unit);
    assert_eq!(s.selected, SelectedUnit(None));
    assert!(s.state.is_hover_a_unit);
}

#[test]
fn session_cursor_clamped_at_right_edge() {
    let mut s = Session::new(Grid::new(20, 20, 32, 32));
    for _ in 0..25 {
        s.step(press(RIGHT, false));
    }
    assert_eq!(s.cursor.position, Cell { x: 19, y: 0 });
    s.step(press(RIGHT, false));
    assert_eq!(s.cursor.position.x, 19);
}
