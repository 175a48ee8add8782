//! A tactical grid board: cell geometry, a key-repeat tile cursor, and a
//! hover / select / move state machine over a registry of units.

pub mod grid;
pub mod tile_cursor;
pub mod session;
pub mod unit;
