//! The game: board bounds, the creature, the fruit and the score, advanced
//! one tick at a time.
use crate::snake::{Direction, Snake, SnakeView};
use crate::vec2::{Point2D, Vec2};
use rand::Rng;
use vstd::prelude::*;

verus! {

/// Segments owed to a new creature, so that it grows to its full length
/// over its first steps.
pub const INITIAL_GROWTH: u32 = 4;

/// Random cells tried before fruit placement falls back to a scan of the board.
pub const RANDOM_DRAWS: u32 = 64;

/// Relies on rand's `thread_rng` and `Rng::gen_range`, which panics on an
/// empty range: a value drawn from `0..n`.
#[verifier::external_body]
fn random_below(n: u32) -> (r: u32)
    requires
        n > 0,
    ensures
        r < n,
{
    rand::thread_rng().gen_range(0..n)
}

/// What a tick reports: the game goes on, or it is over with the final score.
#[derive(PartialEq, Eq, Structural, Clone, Copy, Debug)]
pub enum TickResult {
    Continue,
    Exit(i32),
}

/// Why a game or a fruit cannot be set up.
#[derive(PartialEq, Eq, Structural, Clone, Copy, Debug)]
pub enum GameError {
    /// A board side is zero or too large for the coordinates.
    InvalidDimensions,
    /// The creature covers every cell, so no fruit can be placed.
    BoardFull,
}

/// Whether a board side is usable: positive, and small enough that every
/// cell and every step off the board has `i32` coordinates.
pub open spec fn valid_side(n: u32) -> bool {
    0 < n <= i32::MAX
}

/// One game session.
pub struct GameState {
    pub width: u32,
    pub height: u32,
    pub snake: Snake,
    pub fruit: Option<Point2D>,
    /// Fruit eaten so far.
    pub score: i32,
}

impl GameState {
    /// The cell lies on the board.
    pub open spec fn in_bounds(self, p: Vec2) -> bool {
        0 <= p.x < self.width && 0 <= p.y < self.height
    }

    /// Every cell of the board is taken by the creature.
    pub open spec fn board_full(self) -> bool {
        forall|p: Vec2| #[trigger] self.in_bounds(p) ==> self.snake@.occupies(p)
    }

    /// The fruit, if any, lies on a free cell of the board.
    pub open spec fn fruit_free(self) -> bool {
        match self.fruit {
            Option::Some(f) => self.in_bounds(f) && !self.snake@.occupies(f),
            Option::None => true,
        }
    }

    /// A live game: the head on the board and off the body, the fruit on a
    /// free cell, and room left in the growth counter.
    pub open spec fn wf(self) -> bool {
        &&& valid_side(self.width)
        &&& valid_side(self.height)
        &&& self.in_bounds(self.snake.pos)
        &&& !self.snake@.bites_itself()
        &&& self.snake.queued_grow < u32::MAX
        &&& self.fruit_free()
    }

    /// The outcome of a tick in which the creature reached state `s`.
    pub open spec fn outcome(self, s: SnakeView) -> TickResult {
        if !self.in_bounds(s.pos) || s.bites_itself() {
            TickResult::Exit(self.score)
        } else {
            TickResult::Continue
        }
    }

    /// The creature's next step takes its head onto the fruit.
    pub open spec fn eats(self) -> bool {
        self.fruit == Option::Some(self.snake@.advanced().pos)
    }

    /// A new game on a `width` by `height` board: an idle creature of one
    /// cell at the centre, owed `INITIAL_GROWTH` segments, a fruit on a free
    /// cell, and no score. A side of zero or one beyond `i32::MAX` is
    /// refused, and so is a board of one cell, which leaves no room for fruit.
    pub fn new(width: u32, height: u32) -> (r: Result<GameState, GameError>)
        ensures
            r == Result::<GameState, GameError>::Err(GameError::InvalidDimensions) <==> !(
            valid_side(width) && valid_side(height)),
            r == Result::<GameState, GameError>::Err(GameError::BoardFull) <==> (width == 1
                && height == 1),
            r.is_ok() <==> valid_side(width) && valid_side(height) && !(width == 1 && height
                == 1),
            match r {
                Result::Ok(g) => {
                    &&& g.wf()
                    &&& g.width == width
                    &&& g.height == height
                    &&& g.snake.pos == (Vec2 { x: (width / 2) as i32, y: (height / 2) as i32 })
                    &&& g.snake.tail@.len() == 0
                    &&& g.snake.dir == Direction::Idle
                    &&& g.snake.queued_grow == INITIAL_GROWTH
                    &&& g.score == 0
                    &&& g.fruit.is_some()
                },
                Result::Err(_) => true,
            },
    {
        if width == 0 || height == 0 || width > i32::MAX as u32 || height > i32::MAX as u32 {
            return Result::Err(GameError::InvalidDimensions);
        }
        let mut snake = Snake::new(width, height, 1);
        snake.queued_grow = INITIAL_GROWTH;
        let mut gs = GameState { width, height, snake, fruit: Option::None, score: 0 };
        proof {
            let c = gs.snake.pos;
            if width > 1 {
                assert(gs.in_bounds(Vec2 { x: 0, y: c.y }));
            } else if height > 1 {
                assert(gs.in_bounds(Vec2 { x: c.x, y: 0 }));
            } else {
                assert forall|p: Vec2| #[trigger] gs.in_bounds(p) implies gs.snake@.occupies(p) by {
                    assert(p == c);
                }
            }
        }
        match gs.gen_fruit() {
            Result::Ok(p) => {
                gs.fruit = Option::Some(p);
                Result::Ok(gs)
            },
            Result::Err(e) => Result::Err(e),
        }
    }

    /// One step of the game. The creature moves; if its head reaches the
    /// fruit, a new fruit is placed on a free cell (or none, on a full
    /// board), the creature is owed one segment and the score goes up by one.
    /// The game is over when the head has left the board or lies on the
    /// body; otherwise the state is again a live game.
    pub fn tick(&mut self) -> (r: TickResult)
        requires
            old(self).wf(),
            old(self).score < i32::MAX,
        ensures
            final(self).width == old(self).width,
            final(self).height == old(self).height,
            final(self).snake@ == (if old(self).eats() {
                old(self).snake@.advanced().grown()
            } else {
                old(self).snake@.advanced()
            }),
            final(self).score == old(self).score + (if old(self).eats() { 1int } else { 0int }),
            !old(self).eats() ==> final(self).fruit == old(self).fruit,
            old(self).eats() ==> final(self).fruit_free() && final(self).fruit != old(self).fruit
                && (final(self).fruit.is_none() <==> final(self).board_full()),
            r == final(self).outcome(old(self).snake@.advanced()),
            r == TickResult::Continue ==> final(self).wf(),
    {
        self.snake.tick();
        let ate = match self.fruit {
            Option::Some(f) => self.snake.pos == f,
            Option::None => false,
        };
        if ate {
            let placed = self.gen_fruit();
            let ghost placed_on = *self;
            self.fruit = match placed {
                Result::Ok(p) => Option::Some(p),
                Result::Err(_) => Option::None,
            };
            self.snake.grow();
            self.score = self.score + 1;
            proof {
                assert(self.board_full() <==> placed_on.board_full()) by {
                    if placed_on.board_full() {
                        assert forall|p: Vec2| #[trigger] self.in_bounds(p) implies self.snake@.occupies(
                            p,
                        ) by {
                            assert(placed_on.in_bounds(p));
                        }
                    }
                    if self.board_full() {
                        assert forall|p: Vec2| #[trigger]
                            placed_on.in_bounds(p) implies placed_on.snake@.occupies(p) by {
                            assert(self.in_bounds(p));
                        }
                    }
                }
            }
        } else {
            proof {
                let o = old(self).snake@;
                if let Option::Some(f) = self.fruit {
                    assert(o.kept_tail().contains(f) ==> o.tail.contains(f));
                    assert(!self.snake@.occupies(f));
                }
            }
        }
        let p = self.snake.pos;
        if !(0 <= p.x && p.x < self.width as i32 && 0 <= p.y && p.y < self.height as i32) {
            return TickResult::Exit(self.score);
        }
        if self.snake.collides_tail() {
            return TickResult::Exit(self.score);
        }
        TickResult::Continue
    }

    /// An idle creature eats nothing and cannot collide: a tick of a live
    /// game whose creature has not started moving changes nothing and the
    /// game goes on.
    pub proof fn lemma_idle_tick(self)
        requires
            self.wf(),
            self.snake.dir == Direction::Idle,
        ensures
            self.snake@.advanced() == self.snake@,
            !self.eats(),
            self.outcome(self.snake@.advanced()) == TickResult::Continue,
    {
    }

    /// Scans the board row by row for a cell the creature does not take.
    fn first_free_cell(&self) -> (r: Result<Point2D, GameError>)
        requires
            valid_side(self.width),
            valid_side(self.height),
        ensures
            match r {
                Result::Ok(p) => self.in_bounds(p) && !self.snake@.occupies(p),
                Result::Err(e) => e == GameError::BoardFull && self.board_full(),
            },
    {
        let mut y: u32 = 0;
        while y < self.height
            invariant
                y <= self.height,
                valid_side(self.width),
                valid_side(self.height),
                forall|p: Vec2| #[trigger]
                    self.in_bounds(p) && p.y < y ==> self.snake@.occupies(p),
            decreases self.height - y,
        {
            let mut x: u32 = 0;
            while x < self.width
                invariant
                    x <= self.width,
                    y < self.height,
                    valid_side(self.width),
                    valid_side(self.height),
                    forall|p: Vec2| #[trigger]
                        self.in_bounds(p) && (p.y < y || (p.y == y && p.x < x))
                            ==> self.snake@.occupies(p),
                decreases self.width - x,
            {
                let p = Vec2::new(x as i32, y as i32);
                if !self.snake.contains_point(p) {
                    return Result::Ok(p);
                }
                x = x + 1;
            }
            y = y + 1;
        }
        Result::Err(GameError::BoardFull)
    }

    /// Picks a random free cell for the fruit: cells are drawn uniformly
    /// until one is free, and after a bounded number of misses the board is
    /// scanned instead, so a full board is reported rather than looped on.
    pub fn gen_fruit(&self) -> (r: Result<Point2D, GameError>)
        requires
            valid_side(self.width),
            valid_side(self.height),
        ensures
            match r {
                Result::Ok(p) => self.in_bounds(p) && !self.snake@.occupies(p),
                Result::Err(e) => e == GameError::BoardFull,
            },
            r.is_err() <==> self.board_full(),
    {
        let mut draws: u32 = 0;
        while draws < RANDOM_DRAWS
            invariant
                valid_side(self.width),
                valid_side(self.height),
            decreases RANDOM_DRAWS - draws,
        {
            let fx = random_below(self.width);
            let fy = random_below(self.height);
            let p = Vec2::new(fx as i32, fy as i32);
            if !self.snake.contains_point(p) {
                assert(!self.board_full()) by {
                    assert(self.in_bounds(p));
                }
                return Result::Ok(p);
            }
            draws = draws + 1;
        }
        let r = self.first_free_cell();
        proof {
            if let Result::Ok(p) = r {
                assert(self.in_bounds(p));
            }
        }
        r
    }
}

} // verus!
