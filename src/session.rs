use vstd::prelude::*;

use crate::grid::{Cell, Grid};
use crate::tile_cursor::{
    check_tile_cursor_state, move_tile_cursor, next_position, next_timer, setup_tile_cursor,
    CursorInput, CursorState, MovementTimer, TileCursor, REPEAT_DELAY_MICROS,
    REPEAT_INTERVAL_MICROS,
};
use crate::unit::{
    is_first_at, move_unit, moved_to, occupied, select_unit, selection_wf, spawn_squirrel,
    SelectedUnit, Unit, UnitType,
};

verus! {

/// Everything one game session owns: the board, the cursor and its key-repeat
/// timing, the unit registry and the selection state.
pub struct Session {
    pub grid: Grid,
    pub cursor: TileCursor,
    pub timer: MovementTimer,
    pub units: Vec<Unit>,
    pub state: CursorState,
    pub selected: SelectedUnit,
}

/// What one step of the session reads: the direction keys, the confirm key
/// (freshly pressed) and the elapsed time.
#[derive(Clone, Copy, Debug, PartialEq, Eq, Structural)]
pub struct StepInput {
    pub cursor: CursorInput,
    pub confirm: bool,
}

pub open spec fn units_on_board(g: Grid, units: Seq<Unit>) -> bool {
    forall|i: int| 0 <= i < units.len() ==> g.in_bounds(#[trigger] units[i].position)
}

impl Session {
    pub open spec fn wf(&self) -> bool {
        &&& self.grid.wf()
        &&& self.grid.in_bounds(self.cursor.position)
        &&& units_on_board(self.grid, self.units@)
        &&& selection_wf(self.state, self.selected, self.units@.len())
    }

    /// A fresh session on `grid`: the cursor on `(0, 0)` with the default
    /// timing, one squirrel on `(0, 0)`, nothing hovered or selected.
    pub fn new(grid: Grid) -> (r: Session)
        requires
            grid.wf(),
        ensures
            r.wf(),
            r.grid == grid,
            r.cursor.position == (Cell { x: 0, y: 0 }),
            r.timer.delay == REPEAT_DELAY_MICROS,
            r.timer.repeat == REPEAT_INTERVAL_MICROS,
            r.timer.delay_elapsed == 0,
            r.timer.repeat_elapsed == 0,
            r.units@.len() == 1,
            r.units@[0].position == (Cell { x: 0, y: 0 }),
            r.units@[0].unit_type == UnitType::Squirrel,
            !r.state.is_hover_a_unit,
            !r.state.is_select_a_unit,
            r.selected.0.is_none(),
    {
        let (cursor, timer) = setup_tile_cursor();
        let mut units: Vec<Unit> = Vec::new();
        spawn_squirrel(&mut units);
        Session {
            grid,
            cursor,
            timer,
            units,
            state: CursorState { is_hover_a_unit: false, is_select_a_unit: false },
            selected: SelectedUnit(None),
        }
    }

    /// One update step, in order: advance the timers and move the cursor,
    /// recompute the hover flag, then handle the confirm key (select the unit
    /// under the cursor, or commit the selected unit's move). Returns what
    /// `move_tile_cursor` returns.
    pub fn step(&mut self, input: StepInput) -> (r: Option<bool>)
        requires
            old(self).wf(),
        ensures
            final(self).wf(),
            final(self).grid == old(self).grid,
            final(self).cursor.position == next_position(
                old(self).grid,
                old(self).cursor.position,
                old(self).timer,
                input.cursor.pressed,
                input.cursor.held,
                input.cursor.dt,
            ),
            final(self).timer == next_timer(
                old(self).timer,
                input.cursor.pressed,
                input.cursor.held,
                input.cursor.dt,
            ),
            ({
                let c = final(self).cursor.position;
                match old(self).selected.0 {
                    Some(i) => if input.confirm && old(self).units@[i as int].position != c {
                        &&& final(self).units@ == moved_to(old(self).units@, i as int, c)
                        &&& !final(self).state.is_select_a_unit
                        &&& final(self).state.is_hover_a_unit
                    } else {
                        &&& final(self).units@ == old(self).units@
                        &&& final(self).selected == old(self).selected
                        &&& final(self).state.is_hover_a_unit == occupied(old(self).units@, c)
                    },
                    None => if input.confirm && occupied(old(self).units@, c) {
                        &&& final(self).units@ == old(self).units@
                        &&& final(self).selected.0 matches Some(j) && is_first_at(
                            old(self).units@,
                            c,
                            j as int,
                        )
                        &&& final(self).state.is_hover_a_unit
                    } else {
                        &&& final(self).units@ == old(self).units@
                        &&& final(self).selected == old(self).selected
                        &&& final(self).state.is_hover_a_unit == occupied(old(self).units@, c)
                    },
                }
            }),
    {
        let r = move_tile_cursor(
            &mut self.cursor,
            &mut self.timer,
            &self.units,
            &self.grid,
            input.cursor.pressed,
            input.cursor.held,
            input.cursor.dt,
        );
        check_tile_cursor_state(&self.cursor, &self.units, &mut self.state);
        select_unit(input.confirm, &self.cursor, &self.units, &mut self.selected, &mut self.state);
        move_unit(input.confirm, &self.cursor, &mut self.units, &mut self.selected, &mut self.state);
        r
    }
}

} // verus!
