use snake_game::{
    direction_for_key, steer, Apple, Direction, Game, GridCoord, Key, Snake, Tick,
    MOVE_INTERVAL_US,
};

fn gc(x: u32, y: u32) -> GridCoord {
    GridCoord { x, y }
}

fn in_range(c: GridCoord) -> bool {
    (2..=41).contains(&c.x) && (2..=21).contains(&c.y)
}

const IDLE: Tick = Tick { moved: false, ate_apple: false, died: false };

#[test]
fn keys_map_to_directions() {
    assert_eq!(direction_for_key(Key::W), Some(Direction::Up));
    assert_eq!(direction_for_key(Key::A), Some(Direction::Left));
    assert_eq!(direction_for_key(Key::S), Some(Direction::Down));
    assert_eq!(direction_for_key(Key::D), Some(Direction::Right));
    assert_eq!(direction_for_key(Key::Other), None);
}

#[test]
fn last_steering_key_wins() {
    assert_eq!(steer(Direction::Right, &vec![Key::W, Key::A]), Direction::Left);
    assert_eq!(steer(Direction::Right, &vec![Key::S, Key::Other]), Direction::Down);
    assert_eq!(steer(Direction::Up, &vec![]), Direction::Up);
    assert_eq!(steer(Direction::Up, &vec![Key::Other, Key::Other]), Direction::Up);
}

#[test]
fn new_game_starts_heading_right() {
    let g = Game::new(7);
    assert_eq!(g.direction, Direction::Right);
    assert_eq!(g.score, 0);
    assert_eq!(g.last_move_us, 7);
    assert_eq!(g.snake.segments(), Snake::new().segments());
    assert!(in_range(g.apple.position));
}

#[test]
fn no_move_until_the_interval_has_passed() {
    let mut g = Game::new(1000);
    g.apple = Apple { position: gc(30, 20) };
    assert_eq!(g.frame(1000 + MOVE_INTERVAL_US, &vec![Key::W]), IDLE);
    assert_eq!(g.direction, Direction::Up);
    assert_eq!(g.snake.head(), gc(5, 5));
    assert_eq!(g.last_move_us, 1000);
    assert_eq!(g.frame(500, &vec![]), IDLE);
    assert_eq!(g.snake.head(), gc(5, 5));
}

#[test]
fn moves_once_the_interval_has_passed() {
    let mut g = Game::new(1000);
    g.apple = Apple { position: gc(30, 20) };
    let t = g.frame(1001 + MOVE_INTERVAL_US, &vec![Key::W]);
    assert_eq!(t, Tick { moved: true, ate_apple: false, died: false });
    assert_eq!(g.snake.segments(), &vec![gc(5, 4), gc(5, 5), gc(5, 6), gc(5, 7)]);
    assert_eq!(g.last_move_us, 1001 + MOVE_INTERVAL_US);
}

#[test]
fn eating_scores_moves_the_apple_and_grows_next_move() {
    let mut g = Game::new(0);
    g.apple = Apple { position: gc(6, 5) };
    let t = g.tick();
    assert_eq!(t, Tick { moved: true, ate_apple: true, died: false });
    assert_eq!(g.score, 1);
    assert!(g.snake.must_grow());
    assert!(in_range(g.apple.position));
    assert_eq!(g.snake.segments().len(), 4);
    g.apple = Apple { position: gc(40, 2) };
    let t2 = g.tick();
    assert!(!t2.ate_apple);
    assert_eq!(g.snake.segments(), &vec![gc(7, 5), gc(6, 5), gc(5, 5), gc(5, 6), gc(5, 7)]);
    assert_eq!(g.score, 1);
}

#[test]
fn score_stays_at_its_largest_value() {
    let mut g = Game::new(0);
    g.score = u64::MAX;
    g.apple = Apple { position: gc(6, 5) };
    assert!(g.tick().ate_apple);
    assert_eq!(g.score, u64::MAX);
}

#[test]
fn turning_back_into_the_body_ends_the_game() {
    let mut g = Game::new(0);
    g.apple = Apple { position: gc(30, 20) };
    g.direction = Direction::Down;
    let t = g.tick();
    assert_eq!(t, Tick { moved: true, ate_apple: false, died: true });
}
