//! Game state of a grid-based snake game: the snake's movement, growth and
//! self-collision, the apple's placement, and the per-frame decisions of the
//! game loop. Rendering, input polling and the clock are left to the caller.

mod apple;
mod game;
mod grid;
mod snake;

pub use apple::{
    in_spawn_range, spawn_coord, Apple, SPAWN_X_MIN, SPAWN_X_SPAN, SPAWN_Y_MIN, SPAWN_Y_SPAN,
};
pub use game::{
    direction_for_key, key_direction, move_due, steer, steered, ticked, Game, Key, Tick,
    MOVE_INTERVAL_US,
};
pub use grid::{step, Direction, GridCoord, CELL_SIZE};
pub use snake::{
    lemma_biting_body_is_collision, lemma_collision_iff_repeated_coord, moved, starting_body, trailed, Snake};
