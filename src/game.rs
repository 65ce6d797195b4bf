use vstd::prelude::*;

use crate::apple::{in_spawn_range, Apple};
use crate::grid::Direction;
use crate::snake::{moved, starting_body, Snake};

verus! {

/// Time between two moves of the snake, in microseconds.
pub const MOVE_INTERVAL_US: u64 = 100_000;

/// A key pressed by the player, as far as the game tells keys apart.
#[derive(Clone, Copy, Debug, PartialEq, Eq, Structural)]
pub enum Key {
    W,
    A,
    S,
    D,
    Other,
}

/// The direction a key steers to, if any.
pub open spec fn key_direction(k: Key) -> Option<Direction> {
    match k {
        Key::W => Some(Direction::Up),
        Key::A => Some(Direction::Left),
        Key::S => Some(Direction::Down),
        Key::D => Some(Direction::Right),
        Key::Other => None,
    }
}

/// The direction after the keys `ks`, pressed in that order, starting from
/// `d`: the last key that steers wins, and with none `d` stays.
pub open spec fn steered(d: Direction, ks: Seq<Key>) -> Direction
    decreases ks.len(),
{
    if ks.len() == 0 {
        d
    } else {
        match key_direction(ks.last()) {
            Some(n) => n,
            None => steered(d, ks.drop_last()),
        }
    }
}

/// Whether a move is due at time `now`, the last one having been at `last`
/// (both in microseconds): strictly more than the move interval has passed.
pub open spec fn move_due(last: u64, now: u64) -> bool {
    now >= last && now - last > MOVE_INTERVAL_US
}

/// Maps a key to the direction it steers to.
pub fn direction_for_key(k: Key) -> (r: Option<Direction>)
    ensures
        r == key_direction(k),
{
    match k {
        Key::W => Some(Direction::Up),
        Key::A => Some(Direction::Left),
        Key::S => Some(Direction::Down),
        Key::D => Some(Direction::Right),
        Key::Other => None,
    }
}

/// The direction after the keys of one frame, in the order they were pressed.
pub fn steer(current: Direction, keys: &Vec<Key>) -> (r: Direction)
    ensures
        r == steered(current, keys@),
{
    let mut d = current;
    let mut i: usize = 0;
    while i < keys.len()
        invariant
            i <= keys@.len(),
            d == steered(current, keys@.subrange(0, i as int)),
        decreases keys@.len() - i,
    {
        if let Some(n) = direction_for_key(keys[i]) {
            d = n;
        }
        assert(keys@.subrange(0, i + 1).drop_last() =~= keys@.subrange(0, i as int));
        i += 1;
    }
    assert(keys@.subrange(0, i as int) =~= keys@);
    d
}

/// What one frame did.
#[derive(Clone, Copy, Debug, PartialEq, Eq, Structural)]
pub struct Tick {
    /// The snake moved.
    pub moved: bool,
    /// The snake reached the apple, which moved on; the score went up.
    pub ate_apple: bool,
    /// The snake ran into itself: the game is over.
    pub died: bool,
}

/// The state of one game.
pub struct Game {
    pub snake: Snake,
    pub apple: Apple,
    pub direction: Direction,
    pub score: u64,
    /// When the snake last moved, in microseconds.
    pub last_move_us: u64,
}

/// One move of the snake in direction `d` took the game from `pre` to `post`
/// and reported `t`: the snake moved; when it then lay on the apple, the
/// apple went to a fresh cell of the spawn range, the snake is to grow, and
/// the score went up by one (staying at its largest value); `t.died` tells
/// whether the snake now runs into itself.
pub open spec fn ticked(pre: Game, d: Direction, post: Game, t: Tick) -> bool {
    &&& t.moved
    &&& post.snake@ == moved(pre.snake@, pre.snake.grows(), d)
    &&& t.ate_apple == post.snake@.contains(pre.apple.position)
    &&& post.snake.grows() == t.ate_apple
    &&& if t.ate_apple {
        &&& in_spawn_range(post.apple.position)
        &&& post.score == if pre.score == u64::MAX { u64::MAX } else { (pre.score + 1) as u64 }
    } else {
        &&& post.apple == pre.apple
        &&& post.score == pre.score
    }
    &&& t.died == !post.snake@.no_duplicates()
}

impl Game {
    /// A new game begun at time `now_us`: the starting snake heading right,
    /// an apple on a random cell, no score.
    pub fn new(now_us: u64) -> (r: Game)
        ensures
            r.snake@ == starting_body(),
            !r.snake.grows(),
            in_spawn_range(r.apple.position),
            r.direction == Direction::Right,
            r.score == 0,
            r.last_move_us == now_us,
    {
        Game {
            snake: Snake::new(),
            apple: Apple::new(),
            direction: Direction::Right,
            score: 0,
            last_move_us: now_us,
        }
    }

    /// Moves the snake one cell in the current direction, then lets it eat
    /// the apple it lies on and tells whether it ran into itself.
    pub fn tick(&mut self) -> (r: Tick)
        ensures
            ticked(*old(self), old(self).direction, *final(self), r),
            final(self).direction == old(self).direction,
            final(self).last_move_us == old(self).last_move_us,
    {
        let d = self.direction;
        self.snake.move_direction(&d);
        let ate = self.snake.ate_apple(&self.apple);
        if ate {
            self.apple.randomize_position();
            self.snake.set_must_grow(true);
            self.score = self.score.saturating_add(1);
        }
        let died = self.snake.ran_into_self();
        Tick { moved: true, ate_apple: ate, died }
    }

    /// One frame at time `now_us`: the keys pressed since the last frame
    /// steer the snake, and once the move interval has passed since the last
    /// move the snake moves.
    pub fn frame(&mut self, now_us: u64, keys: &Vec<Key>) -> (r: Tick)
        ensures
            final(self).direction == steered(old(self).direction, keys@),
            r.moved == move_due(old(self).last_move_us, now_us),
            r.moved ==> ticked(*old(self), final(self).direction, *final(self), r)
                && final(self).last_move_us == now_us,
            !r.moved ==> r == (Tick { moved: false, ate_apple: false, died: false })
                && final(self).snake == old(self).snake
                && final(self).apple == old(self).apple
                && final(self).score == old(self).score
                && final(self).last_move_us == old(self).last_move_us,
    {
        self.direction = steer(self.direction, keys);
        if now_us >= self.last_move_us && now_us - self.last_move_us > MOVE_INTERVAL_US {
            let t = self.tick();
            self.last_move_us = now_us;
            t
        } else {
            Tick { moved: false, ate_apple: false, died: false }
        }
    }
}

} // verus!
