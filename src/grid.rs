use vstd::prelude::*;

verus! {

/// Side of one grid cell, in pixels.
pub const CELL_SIZE: u64 = 40;

/// One cell of the play field.
#[derive(Clone, Copy, Debug, PartialEq, Eq, Structural)]
pub struct GridCoord {
    pub x: u32,
    pub y: u32,
}

/// Where the snake is headed.
#[derive(Clone, Copy, Debug, PartialEq, Eq, Structural)]
pub enum Direction {
    Left,
    Right,
    Up,
    Down,
}

/// The cell one step from `c` in direction `d`.
///
/// A coordinate never leaves the range of `u32`: a step past either end keeps
/// the coordinate where it is. The head then lands on the segment it has just
/// left, so the move ends the game through a self-collision (for a snake of
/// two or more segments).
pub open spec fn step(c: GridCoord, d: Direction) -> GridCoord {
    match d {
        Direction::Left => GridCoord { x: if c.x == 0 { 0 } else { (c.x - 1) as u32 }, y: c.y },
        Direction::Right => GridCoord { x: if c.x == u32::MAX { u32::MAX } else { (c.x + 1) as u32 }, y: c.y },
        Direction::Up => GridCoord { x: c.x, y: if c.y == 0 { 0 } else { (c.y - 1) as u32 } },
        Direction::Down => GridCoord { x: c.x, y: if c.y == u32::MAX { u32::MAX } else { (c.y + 1) as u32 } },
    }
}

impl GridCoord {
    /// The cell next to this one in direction `d`.
    pub fn stepped(&self, d: Direction) -> (r: GridCoord)
        ensures
            r == step(*self, d),
    {
        match d {
            Direction::Left => GridCoord { x: self.x.saturating_sub(1), y: self.y },
            Direction::Right => GridCoord { x: self.x.saturating_add(1), y: self.y },
            Direction::Up => GridCoord { x: self.x, y: self.y.saturating_sub(1) },
            Direction::Down => GridCoord { x: self.x, y: self.y.saturating_add(1) },
        }
    }

    /// The top-left corner of this cell, in pixels.
    pub fn pixel_origin(&self) -> (r: (u64, u64))
        ensures
            r.0 == self.x * CELL_SIZE,
            r.1 == self.y * CELL_SIZE,
    {
        (self.x as u64 * CELL_SIZE, self.y as u64 * CELL_SIZE)
    }
}

} // verus!
