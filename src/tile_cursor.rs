use vstd::prelude::*;

use crate::grid::{Cell, Grid};
use crate::unit::{occupied, unit_at, Unit};

verus! {

/// Hold time, in microseconds, before a held direction starts repeating.
pub const REPEAT_DELAY_MICROS: u64 = 500_000;

/// Time, in microseconds, between two repeated moves of a held direction.
pub const REPEAT_INTERVAL_MICROS: u64 = 100_000;

/// The selection cursor and the cell it stands on.
#[derive(Clone, Copy, Debug, PartialEq, Eq, Structural)]
pub struct TileCursor {
    pub position: Cell,
}

/// The two selection flags.
#[derive(Clone, Copy, Debug, PartialEq, Eq, Structural)]
pub struct CursorState {
    pub is_hover_a_unit: bool,
    pub is_select_a_unit: bool,
}

/// The state of the four direction keys.
#[derive(Clone, Copy, Debug, PartialEq, Eq, Structural)]
pub struct Directions {
    pub left: bool,
    pub right: bool,
    pub up: bool,
    pub down: bool,
}

/// Key-repeat timing: the thresholds and the time, in microseconds, elapsed
/// towards each of them since the last direction change.
#[derive(Clone, Copy, Debug, PartialEq, Eq, Structural)]
pub struct MovementTimer {
    pub delay: u64,
    pub repeat: u64,
    pub delay_elapsed: u64,
    pub repeat_elapsed: u64,
}

pub open spec fn any_direction(d: Directions) -> bool {
    d.left || d.right || d.up || d.down
}

pub open spec fn unit_step(pos: bool, neg: bool) -> int {
    (if pos { 1int } else { 0int }) - (if neg { 1int } else { 0int })
}

/// Offset applied by freshly pressed keys: every pressed key counts, so both
/// axes may move together.
pub open spec fn pressed_offset(d: Directions) -> (int, int) {
    (unit_step(d.right, d.left), unit_step(d.up, d.down))
}

/// Offset applied by a repeat: the first held key of left, right, up, down.
pub open spec fn held_offset(d: Directions) -> (int, int) {
    if d.left {
        (-1, 0)
    } else if d.right {
        (1, 0)
    } else if d.up {
        (0, 1)
    } else if d.down {
        (0, -1)
    } else {
        (0, 0)
    }
}

pub open spec fn saturating(v: int) -> u64 {
    if v > u64::MAX {
        u64::MAX
    } else {
        v as u64
    }
}

/// Both elapsed times advanced by `dt`, saturating.
pub open spec fn ticked(t: MovementTimer, dt: u64) -> MovementTimer {
    MovementTimer {
        delay_elapsed: saturating(t.delay_elapsed + dt),
        repeat_elapsed: saturating(t.repeat_elapsed + dt),
        ..t
    }
}

/// The hold delay and the repeat interval have both run out.
pub open spec fn repeat_due(t: MovementTimer) -> bool {
    t.delay_elapsed >= t.delay && t.repeat_elapsed >= t.repeat
}

/// Whether a step with these keys and this (already ticked) timer moves the cursor.
pub open spec fn step_moves(pressed: Directions, held: Directions, t: MovementTimer) -> bool {
    any_direction(pressed) || (repeat_due(t) && any_direction(held))
}

/// The unclamped offset of a step with these keys and this (already ticked) timer.
pub open spec fn step_offset(pressed: Directions, held: Directions, t: MovementTimer) -> (int, int) {
    if any_direction(pressed) {
        pressed_offset(pressed)
    } else if repeat_due(t) {
        held_offset(held)
    } else {
        (0, 0)
    }
}

/// The timer after one step of `dt` microseconds.
pub open spec fn next_timer(
    t: MovementTimer,
    pressed: Directions,
    held: Directions,
    dt: u64,
) -> MovementTimer {
    let tt = ticked(t, dt);
    if any_direction(pressed) {
        MovementTimer { delay_elapsed: 0, repeat_elapsed: 0, ..tt }
    } else if repeat_due(tt) && any_direction(held) {
        MovementTimer { repeat_elapsed: 0, ..tt }
    } else {
        tt
    }
}

/// The cursor cell after one step: offset, then clamped onto the board.
pub open spec fn next_position(
    g: Grid,
    pos: Cell,
    t: MovementTimer,
    pressed: Directions,
    held: Directions,
    dt: u64,
) -> Cell {
    let tt = ticked(t, dt);
    if step_moves(pressed, held, tt) {
        let off = step_offset(pressed, held, tt);
        g.clamp_spec(Cell { x: (pos.x + off.0) as i64, y: (pos.y + off.1) as i64 })
    } else {
        pos
    }
}

/// The keys of one input step and the time, in microseconds, since the last one.
#[derive(Clone, Copy, Debug, PartialEq, Eq, Structural)]
pub struct CursorInput {
    pub pressed: Directions,
    pub held: Directions,
    pub dt: u64,
}

/// The cursor cell after a sequence of input steps.
pub open spec fn run_position(g: Grid, pos: Cell, t: MovementTimer, inputs: Seq<CursorInput>) -> Cell
    decreases inputs.len(),
{
    if inputs.len() == 0 {
        pos
    } else {
        let i = inputs[0];
        run_position(
            g,
            next_position(g, pos, t, i.pressed, i.held, i.dt),
            next_timer(t, i.pressed, i.held, i.dt),
            inputs.drop_first(),
        )
    }
}

pub open spec fn no_keys() -> Directions {
    Directions { left: false, right: false, up: false, down: false }
}

pub open spec fn total_time(dts: Seq<u64>) -> int
    decreases dts.len(),
{
    if dts.len() == 0 {
        0
    } else {
        dts[0] + total_time(dts.drop_first())
    }
}

/// No step of a run that holds `held` without fresh presses, with step
/// durations `dts`, moves the cursor.
pub open spec fn held_run_quiet(t: MovementTimer, held: Directions, dts: Seq<u64>) -> bool
    decreases dts.len(),
{
    dts.len() == 0 || (!step_moves(no_keys(), held, ticked(t, dts[0])) && held_run_quiet(
        next_timer(t, no_keys(), held, dts[0]),
        held,
        dts.drop_first(),
    ))
}

impl TileCursor {
    pub fn new(start_pos: Cell) -> (r: TileCursor)
        ensures
            r.position == start_pos,
    {
        TileCursor { position: start_pos }
    }
}

impl MovementTimer {
    /// A timer with the given thresholds and nothing elapsed.
    pub fn new(delay: u64, repeat: u64) -> (r: MovementTimer)
        ensures
            r.delay == delay,
            r.repeat == repeat,
            r.delay_elapsed == 0,
            r.repeat_elapsed == 0,
    {
        MovementTimer { delay, repeat, delay_elapsed: 0, repeat_elapsed: 0 }
    }
}

fn any_pressed(d: Directions) -> (r: bool)
    ensures
        r == any_direction(d),
{
    d.left || d.right || d.up || d.down
}

/// One input step for the cursor. Both elapsed times advance by `dt`; freshly
/// pressed keys move the cursor at once and restart both timers; otherwise, once
/// the hold delay and the repeat interval have both run out, the first held key
/// moves it and restarts the repeat interval. The new cell is clamped onto the
/// board. Returns `None` when the cursor did not move, else whether its cell now
/// holds a unit.
pub fn move_tile_cursor(
    cursor: &mut TileCursor,
    timer: &mut MovementTimer,
    units: &Vec<Unit>,
    grid: &Grid,
    pressed: Directions,
    held: Directions,
    dt: u64,
) -> (r: Option<bool>)
    requires
        grid.wf(),
        grid.in_bounds(old(cursor).position),
    ensures
        final(cursor).position == next_position(
            *grid,
            old(cursor).position,
            *old(timer),
            pressed,
            held,
            dt,
        ),
        *final(timer) == next_timer(*old(timer), pressed, held, dt),
        grid.in_bounds(final(cursor).position),
        r == (if step_moves(pressed, held, ticked(*old(timer), dt)) {
            Some(occupied(units@, final(cursor).position))
        } else {
            None
        }),
{
    timer.delay_elapsed = timer.delay_elapsed.saturating_add(dt);
    timer.repeat_elapsed = timer.repeat_elapsed.saturating_add(dt);
    let mut dx: i64 = 0;
    let mut dy: i64 = 0;
    let mut moved = false;
    if any_pressed(pressed) {
        if pressed.left {
            dx = dx - 1;
        }
        if pressed.right {
            dx = dx + 1;
        }
        if pressed.up {
            dy = dy + 1;
        }
        if pressed.down {
            dy = dy - 1;
        }
        moved = true;
        timer.delay_elapsed = 0;
        timer.repeat_elapsed = 0;
    } else if timer.delay_elapsed >= timer.delay && timer.repeat_elapsed >= timer.repeat {
        if held.left {
            dx = -1;
            moved = true;
        } else if held.right {
            dx = 1;
            moved = true;
        } else if held.up {
            dy = 1;
            moved = true;
        } else if held.down {
            dy = -1;
            moved = true;
        }
        if moved {
            timer.repeat_elapsed = 0;
        }
    }
    if moved {
        let target = Cell { x: cursor.position.x + dx, y: cursor.position.y + dy };
        cursor.position = grid.clamp(target);
        Some(unit_at(units, cursor.position).is_some())
    } else {
        None
    }
}

/// Recomputes the hover flag: it is set exactly when some unit stands on the
/// cursor's cell. The selection flag is left alone.
pub fn check_tile_cursor_state(cursor: &TileCursor, units: &Vec<Unit>, state: &mut CursorState)
    ensures
        final(state).is_hover_a_unit == occupied(units@, cursor.position),
        final(state).is_select_a_unit == old(state).is_select_a_unit,
{
    state.is_hover_a_unit = unit_at(units, cursor.position).is_some();
}

/// The cursor at cell `(0, 0)` with the default key-repeat timing.
pub fn setup_tile_cursor() -> (r: (TileCursor, MovementTimer))
    ensures
        r.0.position.x == 0,
        r.0.position.y == 0,
        r.1.delay == REPEAT_DELAY_MICROS,
        r.1.repeat == REPEAT_INTERVAL_MICROS,
        r.1.delay_elapsed == 0,
        r.1.repeat_elapsed == 0,
{
    (TileCursor::new(Cell { x: 0, y: 0 }), MovementTimer::new(REPEAT_DELAY_MICROS, REPEAT_INTERVAL_MICROS))
}

/// One step never takes a cursor off the board.
pub proof fn lemma_step_stays_on_board(
    g: Grid,
    pos: Cell,
    t: MovementTimer,
    pressed: Directions,
    held: Directions,
    dt: u64,
)
    requires
        g.wf(),
        g.in_bounds(pos),
    ensures
        g.in_bounds(next_position(g, pos, t, pressed, held, dt)),
{
}

/// However many input steps are applied, the cursor stays on the board.
pub proof fn lemma_cursor_stays_on_board(
    g: Grid,
    pos: Cell,
    t: MovementTimer,
    inputs: Seq<CursorInput>,
)
    requires
        g.wf(),
        g.in_bounds(pos),
    ensures
        g.in_bounds(run_position(g, pos, t, inputs)),
    decreases inputs.len(),
{
    if inputs.len() > 0 {
        let i = inputs[0];
        lemma_step_stays_on_board(g, pos, t, i.pressed, i.held, i.dt);
        lemma_cursor_stays_on_board(
            g,
            next_position(g, pos, t, i.pressed, i.held, i.dt),
            next_timer(t, i.pressed, i.held, i.dt),
            inputs.drop_first(),
        );
    }
}

/// A fresh press moves the cursor in the same step, by the pressed keys, and
/// restarts both timers.
pub proof fn lemma_press_moves_at_once(t: MovementTimer, pressed: Directions, held: Directions, dt: u64)
    requires
        any_direction(pressed),
    ensures
        step_moves(pressed, held, ticked(t, dt)),
        step_offset(pressed, held, ticked(t, dt)) == pressed_offset(pressed),
        next_timer(t, pressed, held, dt).delay_elapsed == 0,
        next_timer(t, pressed, held, dt).repeat_elapsed == 0,
{
}

/// While less than the hold delay has passed since the timers restarted,
/// holding keys moves nothing.
pub proof fn lemma_quiet_during_delay(t: MovementTimer, held: Directions, dts: Seq<u64>)
    requires
        t.delay_elapsed + total_time(dts) < t.delay,
    ensures
        held_run_quiet(t, held, dts),
    decreases dts.len(),
{
    if dts.len() > 0 {
        lemma_total_time_nonneg(dts.drop_first());
        lemma_quiet_during_delay(next_timer(t, no_keys(), held, dts[0]), held, dts.drop_first());
    }
}

proof fn lemma_total_time_nonneg(dts: Seq<u64>)
    ensures
        total_time(dts) >= 0,
    decreases dts.len(),
{
    if dts.len() > 0 {
        lemma_total_time_nonneg(dts.drop_first());
    }
}

/// Once the hold delay has passed, a held key moves the cursor in exactly the
/// steps where the repeat interval has run out, and each such move restarts the
/// repeat interval alone; the hold delay is not waited for again.
pub proof fn lemma_repeat_cadence(t: MovementTimer, held: Directions, dt: u64)
    requires
        any_direction(held),
        ticked(t, dt).delay_elapsed >= t.delay,
    ensures
        step_moves(no_keys(), held, ticked(t, dt)) == (ticked(t, dt).repeat_elapsed >= t.repeat),
        step_moves(no_keys(), held, ticked(t, dt)) ==> next_timer(t, no_keys(), held, dt)
            == (MovementTimer { repeat_elapsed: 0, ..ticked(t, dt) }),
        !step_moves(no_keys(), held, ticked(t, dt)) ==> next_timer(t, no_keys(), held, dt)
            == ticked(t, dt),
        step_moves(no_keys(), held, ticked(t, dt)) ==> step_offset(no_keys(), held, ticked(t, dt))
            == held_offset(held),
{
}

} // verus!
