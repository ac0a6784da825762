use snake_game::gamestate::{GameError, GameState, TickResult, INITIAL_GROWTH};
use snake_game::snake::{Direction, Snake};
use snake_game::vec2::Vec2;

fn snake_at(pos: (i32, i32), tail: &[(i32, i32)], queued_grow: u32, dir: Direction) -> Snake {
    Snake {
        pos: Vec2::new(pos.0, pos.1),
        tail: tail.iter().map(|&(x, y)| Vec2::new(x, y)).collect(),
        queued_grow,
        dir,
    }
}

fn game(width: u32, height: u32, snake: Snake, fruit: Option<(i32, i32)>) -> GameState {
    GameState { width, height, snake, fruit: fruit.map(|(x, y)| Vec2::new(x, y)), score: 0 }
}

fn cells(s: &Snake) -> Vec<(i32, i32)> {
    s.tail.iter().map(|p| (p.x, p.y)).collect()
}

#[test]
fn vector_arithmetic() {
    let a = Vec2::new(3, -2);
    let b = Vec2::new(1, 5);
    assert_eq!(a.add(b), Vec2::new(4, 3));
    assert_eq!(a.sub(b), Vec2::new(2, -7));
    let mut c = a;
    c.add_assign(b);
    assert_eq!(c, Vec2::new(4, 3));
    c.sub_assign(b);
    assert_eq!(c, a);
}

#[test]
fn direction_vectors_and_opposites() {
    assert_eq!(Direction::Up.vec(), Vec2::new(0, -1));
    assert_eq!(Direction::Down.vec(), Vec2::new(0, 1));
    assert_eq!(Direction::Left.vec(), Vec2::new(-1, 0));
    assert_eq!(Direction::Right.vec(), Vec2::new(1, 0));
    assert_eq!(Direction::Idle.vec(), Vec2::new(0, 0));
    assert_eq!(Direction::Up.opposite(), Direction::Down);
    assert_eq!(Direction::Left.opposite(), Direction::Right);
    assert_eq!(Direction::Right.opposite(), Direction::Left);
    assert_eq!(Direction::Idle.opposite(), Direction::Idle);
}

#[test]
fn new_snake_stretches_left_of_centre() {
    let s = Snake::new(10, 7, 4);
    assert_eq!(s.pos, Vec2::new(5, 3));
    assert_eq!(cells(&s), vec![(4, 3), (3, 3), (2, 3)]);
    assert_eq!(s.dir, Direction::Idle);
    assert_eq!(s.queued_grow, 0);
    assert!(Snake::new(10, 7, 1).tail.is_empty());
    assert!(Snake::new(10, 7, 0).tail.is_empty());
}

#[test]
fn movement_shifts_body() {
    let mut s = snake_at((5, 5), &[(4, 5), (3, 5)], 0, Direction::Right);
    s.tick();
    assert_eq!(s.pos, Vec2::new(6, 5));
    assert_eq!(cells(&s), vec![(5, 5), (4, 5)]);
}

#[test]
fn growth_is_deferred_one_tick() {
    let mut plain = snake_at((5, 5), &[(4, 5), (3, 5)], 0, Direction::Right);
    let mut fed = snake_at((5, 5), &[(4, 5), (3, 5)], 0, Direction::Right);
    fed.grow();
    assert_eq!(fed.tail.len(), 2);
    plain.tick();
    fed.tick();
    assert_eq!(fed.tail.len(), plain.tail.len() + 1);
    assert_eq!(cells(&fed), vec![(5, 5), (4, 5), (3, 5)]);
    fed.tick();
    assert_eq!(fed.tail.len(), 3);
    assert_eq!(cells(&fed), vec![(6, 5), (5, 5), (4, 5)]);
}

#[test]
fn single_cell_snake_keeps_old_head() {
    let mut s = snake_at((2, 2), &[], 0, Direction::Down);
    s.tick();
    assert_eq!(s.pos, Vec2::new(2, 3));
    assert_eq!(cells(&s), vec![(2, 2)]);
}

#[test]
fn idle_snake_does_not_move() {
    let mut s = snake_at((5, 5), &[(4, 5)], 2, Direction::Idle);
    s.tick();
    assert_eq!(s.pos, Vec2::new(5, 5));
    assert_eq!(cells(&s), vec![(4, 5)]);
    assert_eq!(s.queued_grow, 2);
}

#[test]
fn idle_game_tick_changes_nothing() {
    for &(w, h) in &[(3u32, 3u32), (20, 9), (1, 4)] {
        let mut g = GameState::new(w, h).unwrap();
        let fruit = g.fruit;
        let pos = g.snake.pos;
        for _ in 0..5 {
            assert_eq!(g.tick(), TickResult::Continue);
        }
        assert_eq!(g.snake.pos, pos);
        assert!(g.snake.tail.is_empty());
        assert_eq!(g.fruit, fruit);
        assert_eq!(g.score, 0);
    }
}

#[test]
fn reversal_is_ignored() {
    let mut s = snake_at((5, 5), &[(4, 5)], 0, Direction::Right);
    s.set_direction(Direction::Left);
    assert_eq!(s.dir, Direction::Right);
    s.set_direction(Direction::Up);
    assert_eq!(s.dir, Direction::Up);
    s.set_direction(Direction::Down);
    assert_eq!(s.dir, Direction::Up);
}

#[test]
fn steer_takes_last_accepted_request() {
    let mut s = snake_at((5, 5), &[(4, 5)], 0, Direction::Right);
    s.steer(&vec![Direction::Up, Direction::Left]);
    assert_eq!(s.dir, Direction::Up);
    s.steer(&vec![Direction::Down]);
    assert_eq!(s.dir, Direction::Up);
    s.steer(&vec![]);
    assert_eq!(s.dir, Direction::Up);
    s.steer(&vec![Direction::Left, Direction::Right]);
    assert_eq!(s.dir, Direction::Right);
}

#[test]
fn contains_point_and_collision() {
    let s = snake_at((2, 2), &[(2, 3), (3, 3)], 0, Direction::Up);
    assert!(s.contains_point(Vec2::new(2, 2)));
    assert!(s.contains_point(Vec2::new(3, 3)));
    assert!(!s.contains_point(Vec2::new(1, 1)));
    assert!(!s.collides_tail());
    let bitten = snake_at((3, 3), &[(2, 3), (3, 3)], 0, Direction::Up);
    assert!(bitten.collides_tail());
}

#[test]
fn boundary_termination() {
    let mut g = game(3, 3, snake_at((2, 1), &[], 0, Direction::Right), None);
    assert_eq!(g.tick(), TickResult::Exit(0));
    let mut g = game(3, 3, snake_at((0, 0), &[], 0, Direction::Up), None);
    assert_eq!(g.tick(), TickResult::Exit(0));
}

#[test]
fn self_collision_termination() {
    let snake = snake_at((1, 1), &[(2, 1), (2, 2), (1, 2), (0, 2)], 0, Direction::Down);
    let mut g = game(5, 5, snake, None);
    assert_eq!(g.tick(), TickResult::Exit(0));
    assert_eq!(g.snake.pos, Vec2::new(1, 2));
}

#[test]
fn eating_scores_once_and_grows_later() {
    let snake = snake_at((1, 1), &[(0, 1)], 0, Direction::Right);
    let mut g = game(6, 3, snake, Some((2, 1)));
    assert_eq!(g.tick(), TickResult::Continue);
    assert_eq!(g.score, 1);
    assert_eq!(g.snake.queued_grow, 1);
    assert_eq!(cells(&g.snake), vec![(1, 1)]);
    let f = g.fruit.unwrap();
    assert_ne!(f, Vec2::new(2, 1));
    assert!(!g.snake.contains_point(f));
    g.fruit = Some(Vec2::new(0, 0));
    assert_eq!(g.tick(), TickResult::Continue);
    assert_eq!(g.score, 1);
    assert_eq!(cells(&g.snake), vec![(2, 1), (1, 1)]);
}

#[test]
fn respawn_on_the_only_free_cell() {
    let snake = snake_at((1, 0), &[(0, 0)], 0, Direction::Right);
    let mut g = game(3, 1, snake, Some((2, 0)));
    assert_eq!(g.tick(), TickResult::Continue);
    assert_eq!(g.fruit, Some(Vec2::new(0, 0)));
    assert_eq!(g.score, 1);
}

#[test]
fn respawn_on_a_full_board_leaves_no_fruit() {
    let snake = snake_at((0, 0), &[], 0, Direction::Right);
    let mut g = game(2, 1, snake, Some((1, 0)));
    assert_eq!(g.tick(), TickResult::Continue);
    assert_eq!(g.fruit, None);
    assert_eq!(g.score, 1);
    assert_eq!(g.gen_fruit(), Err(GameError::BoardFull));
}

#[test]
fn new_game_setup() {
    let g = GameState::new(20, 10).unwrap();
    assert_eq!((g.width, g.height), (20, 10));
    assert_eq!(g.snake.pos, Vec2::new(10, 5));
    assert!(g.snake.tail.is_empty());
    assert_eq!(g.snake.dir, Direction::Idle);
    assert_eq!(g.snake.queued_grow, INITIAL_GROWTH);
    assert_eq!(g.score, 0);
    let f = g.fruit.unwrap();
    assert!(f.x >= 0 && f.x < 20 && f.y >= 0 && f.y < 10);
    assert_ne!(f, g.snake.pos);
}

#[test]
fn new_game_rejects_bad_boards() {
    assert_eq!(GameState::new(0, 5).err(), Some(GameError::InvalidDimensions));
    assert_eq!(GameState::new(5, 0).err(), Some(GameError::InvalidDimensions));
    assert_eq!(GameState::new(1 << 31, 5).err(), Some(GameError::InvalidDimensions));
    assert_eq!(GameState::new(1, 1).err(), Some(GameError::BoardFull));
    assert!(GameState::new(1, 2).is_ok());
}

#[test]
fn fruit_is_always_drawn_on_free_cells() {
    let snake = snake_at((1, 1), &[(0, 1), (0, 0), (1, 0)], 0, Direction::Idle);
    let g = game(2, 3, snake, None);
    for _ in 0..200 {
        let f = g.gen_fruit().unwrap();
        assert!(f == Vec2::new(0, 2) || f == Vec2::new(1, 2));
    }
}

#[test]
fn fruit_stays_off_the_snake_while_playing() {
    let mut g = GameState::new(8, 8).unwrap();
    let moves = [Direction::Right, Direction::Down, Direction::Left, Direction::Up];
    let mut turn = 0;
    for step in 0..200 {
        if step % 3 == 0 {
            g.snake.set_direction(moves[turn % 4]);
            turn += 1;
        }
        let score = g.score;
        let fruit = g.fruit;
        match g.tick() {
            TickResult::Exit(s) => {
                assert_eq!(s, g.score);
                break;
            }
            TickResult::Continue => {
                let eaten = fruit == Some(g.snake.pos);
                assert_eq!(g.score, score + if eaten { 1 } else { 0 });
                if let Some(f) = g.fruit {
                    assert!(!g.snake.contains_point(f));
                    assert!(f.x >= 0 && f.x < 8 && f.y >= 0 && f.y < 8);
                }
            }
        }
    }
}
