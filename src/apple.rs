use vstd::prelude::*;

use crate::grid::GridCoord;

verus! {

/// Lowest column an apple is placed in.
pub const SPAWN_X_MIN: u32 = 2;

/// Number of columns an apple may be placed in.
pub const SPAWN_X_SPAN: u32 = 40;

/// Lowest row an apple is placed in.
pub const SPAWN_Y_MIN: u32 = 2;

/// Number of rows an apple may be placed in.
pub const SPAWN_Y_SPAN: u32 = 20;

/// The cells a fresh apple may occupy: columns 2 to 41, rows 2 to 21.
pub open spec fn in_spawn_range(c: GridCoord) -> bool {
    &&& SPAWN_X_MIN <= c.x < SPAWN_X_MIN + SPAWN_X_SPAN
    &&& SPAWN_Y_MIN <= c.y < SPAWN_Y_MIN + SPAWN_Y_SPAN
}

/// Relies on rand::random, which draws a value from the thread-local
/// generator; nothing is promised of the value.
pub assume_specification<T>[ rand::random::<T> ]() -> (r: T)
    where
        rand::distributions::Standard: rand::distributions::Distribution<T>,
;

/// The spawn cell picked by two random draws: the first chooses the column,
/// the second the row.
pub fn spawn_coord(a: u32, b: u32) -> (r: GridCoord)
    ensures
        r.x == a % SPAWN_X_SPAN + SPAWN_X_MIN,
        r.y == b % SPAWN_Y_SPAN + SPAWN_Y_MIN,
        in_spawn_range(r),
{
    GridCoord { x: a % SPAWN_X_SPAN + SPAWN_X_MIN, y: b % SPAWN_Y_SPAN + SPAWN_Y_MIN }
}

/// The single apple on the play field.
#[derive(Clone, Copy, Debug, PartialEq, Eq, Structural)]
pub struct Apple {
    pub position: GridCoord,
}

impl Apple {
    /// An apple on a random cell of the spawn range.
    pub fn new() -> (r: Apple)
        ensures
            in_spawn_range(r.position),
    {
        Apple { position: Self::random_grid_coord() }
    }

    /// Moves the apple to a random cell of the spawn range. The snake's body
    /// is not avoided.
    pub fn randomize_position(&mut self)
        ensures
            in_spawn_range(final(self).position),
    {
        self.position = Self::random_grid_coord();
    }

    /// A random cell of the spawn range, drawn from the process-wide random
    /// source.
    pub fn random_grid_coord() -> (r: GridCoord)
        ensures
            in_spawn_range(r),
    {
        let a: u32 = rand::random::<u32>();
        let b: u32 = rand::random::<u32>();
        spawn_coord(a, b)
    }
}

} // verus!
