use vstd::prelude::*;

use crate::grid::Cell;
use crate::tile_cursor::{CursorState, TileCursor};

verus! {

/// The closed set of unit kinds.
#[derive(Clone, Copy, Debug, PartialEq, Eq, Structural)]
pub enum UnitType {
    Squirrel,
}

/// A unit placed on the board.
#[derive(Clone, Copy, Debug, PartialEq, Eq, Structural)]
pub struct Unit {
    pub position: Cell,
    pub unit_type: UnitType,
}

/// The unit held for movement, as an index into the unit registry.
#[derive(Clone, Copy, Debug, PartialEq, Eq, Structural)]
pub struct SelectedUnit(pub Option<usize>);

/// Some unit of `units` stands on `c`.
pub open spec fn occupied(units: Seq<Unit>, c: Cell) -> bool {
    exists|i: int| 0 <= i < units.len() && (#[trigger] units[i]).position == c
}

/// `i` is the first unit, in registry order, that stands on `c`.
pub open spec fn is_first_at(units: Seq<Unit>, c: Cell, i: int) -> bool {
    &&& 0 <= i < units.len()
    &&& units[i].position == c
    &&& forall|j: int| 0 <= j < i ==> (#[trigger] units[j]).position != c
}

/// The selection flag and the selected unit agree, and the selected unit exists.
pub open spec fn selection_wf(state: CursorState, selected: SelectedUnit, n: nat) -> bool {
    &&& state.is_select_a_unit <==> selected.0.is_some()
    &&& selected.0 matches Some(i) ==> i < n
}

/// The registry after unit `i` has been moved to `c`.
pub open spec fn moved_to(units: Seq<Unit>, i: int, c: Cell) -> Seq<Unit> {
    units.update(i, Unit { position: c, unit_type: units[i].unit_type })
}

impl Unit {
    pub fn new(position: Cell, unit_type: UnitType) -> (r: Unit)
        ensures
            r.position == position,
            r.unit_type == unit_type,
    {
        Unit { position, unit_type }
    }
}

/// The first unit, in registry order, standing on `c`.
pub fn unit_at(units: &Vec<Unit>, c: Cell) -> (r: Option<usize>)
    ensures
        match r {
            Some(i) => is_first_at(units@, c, i as int),
            None => !occupied(units@, c),
        },
{
    let mut i: usize = 0;
    while i < units.len()
        invariant
            0 <= i <= units.len(),
            forall|j: int| 0 <= j < i ==> (#[trigger] units@[j]).position != c,
        decreases units.len() - i,
    {
        if units[i].position == c {
            return Some(i);
        }
        i = i + 1;
    }
    None
}

/// Places the starting squirrel on cell `(0, 0)`; returns its index.
pub fn spawn_squirrel(units: &mut Vec<Unit>) -> (r: usize)
    ensures
        final(units)@ == old(units)@.push(
            Unit { position: Cell { x: 0, y: 0 }, unit_type: UnitType::Squirrel },
        ),
        r == old(units)@.len(),
{
    let r = units.len();
    units.push(Unit::new(Cell { x: 0, y: 0 }, UnitType::Squirrel));
    r
}

/// Confirm while hovering a unit with nothing selected: the first unit on the
/// cursor's cell becomes the selected unit. Any other case leaves both
/// `selected` and `state` as they were.
pub fn select_unit(
    confirm: bool,
    cursor: &TileCursor,
    units: &Vec<Unit>,
    selected: &mut SelectedUnit,
    state: &mut CursorState,
)
    ensures
        if confirm && old(state).is_hover_a_unit && !old(state).is_select_a_unit && occupied(
            units@,
            cursor.position,
        ) {
            &&& final(state).is_select_a_unit
            &&& final(state).is_hover_a_unit == old(state).is_hover_a_unit
            &&& final(selected).0 matches Some(i) && is_first_at(units@, cursor.position, i as int)
        } else {
            &&& *final(state) == *old(state)
            &&& *final(selected) == *old(selected)
        },
{
    if confirm && state.is_hover_a_unit && !state.is_select_a_unit {
        match unit_at(units, cursor.position) {
            Some(i) => {
                state.is_select_a_unit = true;
                selected.0 = Some(i);
            },
            None => {},
        }
    }
}

/// Confirm while a unit is selected: when the cursor stands off the selected
/// unit's cell, that unit moves to the cursor's cell and the selection is
/// cleared; the cursor then hovers the moved unit. A confirm on the unit's own
/// cell, or without a selection, changes nothing.
pub fn move_unit(
    confirm: bool,
    cursor: &TileCursor,
    units: &mut Vec<Unit>,
    selected: &mut SelectedUnit,
    state: &mut CursorState,
)
    requires
        selection_wf(*old(state), *old(selected), old(units)@.len()),
    ensures
        selection_wf(*final(state), *final(selected), final(units)@.len()),
        match old(selected).0 {
            Some(i) if confirm && old(state).is_select_a_unit && old(units)@[i as int].position
                != cursor.position => {
                &&& final(units)@ == moved_to(old(units)@, i as int, cursor.position)
                &&& !final(state).is_select_a_unit
                &&& final(selected).0.is_none()
                &&& final(state).is_hover_a_unit
                &&& occupied(final(units)@, cursor.position)
            },
            _ => {
                &&& final(units)@ == old(units)@
                &&& *final(state) == *old(state)
                &&& *final(selected) == *old(selected)
            },
        },
{
    if confirm && state.is_select_a_unit {
        match selected.0 {
            Some(i) => {
                if units[i].position != cursor.position {
                    let moved = Unit::new(cursor.position, units[i].unit_type);
                    units.set(i, moved);
                    state.is_select_a_unit = false;
                    selected.0 = None;
                    state.is_hover_a_unit = true;
                    assert(units@[i as int].position == cursor.position);
                }
            },
            None => {},
        }
    }
}

} // verus!
