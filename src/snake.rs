//! The creature: a head, the trailing body segments and pending growth.
use crate::vec2::{fits, Point2D, Vec2};
use vstd::prelude::*;

verus! {

/// A heading on the grid; `Idle` means the creature has not started moving.
#[derive(PartialEq, Eq, Structural, Clone, Copy, Debug)]
pub enum Direction {
    Up,
    Down,
    Left,
    Right,
    Idle,
}

impl Direction {
    /// The unit displacement of one step in this direction (y grows downwards).
    pub open spec fn delta(self) -> Vec2 {
        match self {
            Direction::Up => Vec2 { x: 0, y: -1i32 },
            Direction::Down => Vec2 { x: 0, y: 1 },
            Direction::Left => Vec2 { x: -1i32, y: 0 },
            Direction::Right => Vec2 { x: 1, y: 0 },
            Direction::Idle => Vec2 { x: 0, y: 0 },
        }
    }

    /// The reverse heading; `Idle` is its own opposite.
    pub open spec fn reverse(self) -> Direction {
        match self {
            Direction::Up => Direction::Down,
            Direction::Down => Direction::Up,
            Direction::Left => Direction::Right,
            Direction::Right => Direction::Left,
            Direction::Idle => Direction::Idle,
        }
    }

    /// The unit displacement of one step in this direction.
    pub fn vec(&self) -> (r: Vec2)
        ensures
            r == self.delta(),
    {
        match self {
            Direction::Up => Vec2 { x: 0, y: -1 },
            Direction::Down => Vec2 { x: 0, y: 1 },
            Direction::Left => Vec2 { x: -1, y: 0 },
            Direction::Right => Vec2 { x: 1, y: 0 },
            Direction::Idle => Vec2 { x: 0, y: 0 },
        }
    }

    /// The reverse heading.
    pub fn opposite(&self) -> (r: Direction)
        ensures
            r == self.reverse(),
    {
        match self {
            Direction::Up => Direction::Down,
            Direction::Down => Direction::Up,
            Direction::Left => Direction::Right,
            Direction::Right => Direction::Left,
            Direction::Idle => Direction::Idle,
        }
    }
}

/// The last request in `reqs` that is not the reverse of `cur`, if any.
pub open spec fn last_accepted(cur: Direction, reqs: Seq<Direction>) -> Option<Direction>
    decreases reqs.len(),
{
    if reqs.len() == 0 {
        Option::None
    } else if reqs.last() != cur.reverse() {
        Option::Some(reqs.last())
    } else {
        last_accepted(cur, reqs.drop_last())
    }
}

/// The mathematical state of a creature.
pub struct SnakeView {
    pub pos: Vec2,
    pub tail: Seq<Vec2>,
    pub queued_grow: nat,
    pub dir: Direction,
}

impl SnakeView {
    /// The cell is the head or one of the body segments.
    pub open spec fn occupies(self, p: Vec2) -> bool {
        self.pos == p || self.tail.contains(p)
    }

    /// The head lies on one of its own body segments.
    pub open spec fn bites_itself(self) -> bool {
        self.tail.contains(self.pos)
    }

    /// The next head position is representable.
    pub open spec fn can_advance(self) -> bool {
        fits(self.pos.x + self.dir.delta().x, self.pos.y + self.dir.delta().y)
    }

    /// The body segments that survive one step: all of them while growth is
    /// owed, else all but the tail-most one.
    pub open spec fn kept_tail(self) -> Seq<Vec2> {
        if self.queued_grow == 0 && self.tail.len() > 0 {
            self.tail.drop_last()
        } else {
            self.tail
        }
    }

    /// The state after one step; an idle creature stays where it is.
    pub open spec fn advanced(self) -> SnakeView {
        if self.dir == Direction::Idle {
            self
        } else {
            SnakeView {
                pos: self.pos.plus(self.dir.delta()),
                tail: seq![self.pos] + self.kept_tail(),
                queued_grow: if self.queued_grow == 0 { 0 } else { (self.queued_grow - 1) as nat },
                dir: self.dir,
            }
        }
    }

    /// The state after one more segment is owed.
    pub open spec fn grown(self) -> SnakeView {
        SnakeView { queued_grow: self.queued_grow + 1, ..self }
    }

    /// The state after a direction request passes the reversal gate, or not.
    pub open spec fn steered(self, d: Direction) -> SnakeView {
        if d != self.dir.reverse() {
            SnakeView { dir: d, ..self }
        } else {
            self
        }
    }
}

/// Growth is deferred: for a moving creature that owes no growth, one `grow`
/// before a step leaves the body one segment longer than the same step
/// without it, and the next step without further growth keeps that length.
pub proof fn lemma_growth_deferred(s: SnakeView)
    requires
        s.dir != Direction::Idle,
        s.tail.len() > 0,
        s.queued_grow == 0,
    ensures
        s.grown().advanced().tail.len() == s.advanced().tail.len() + 1,
        s.grown().advanced().advanced().tail.len() == s.grown().advanced().tail.len(),
{
}

/// A creature on the grid.
pub struct Snake {
    pub pos: Point2D,
    /// Body segments from the one next to the head to the tail-most one.
    pub tail: Vec<Point2D>,
    pub queued_grow: u32,
    pub dir: Direction,
}

impl View for Snake {
    type V = SnakeView;

    open spec fn view(&self) -> SnakeView {
        SnakeView {
            pos: self.pos,
            tail: self.tail@,
            queued_grow: self.queued_grow as nat,
            dir: self.dir,
        }
    }
}

impl Snake {
    /// A creature of `length` cells, idle, with its head at the centre of a
    /// `width` by `height` board and its body stretching to the left.
    pub fn new(width: u32, height: u32, length: usize) -> (r: Snake)
        requires
            length <= i32::MAX,
        ensures
            r.pos == (Vec2 { x: (width / 2) as i32, y: (height / 2) as i32 }),
            r.tail@.len() == (if length == 0 { 0int } else { length - 1 }),
            forall|i: int|
                0 <= i < r.tail@.len() ==> #[trigger] r.tail@[i] == (Vec2 {
                    x: (r.pos.x - (i + 1)) as i32,
                    y: r.pos.y,
                }),
            r.queued_grow == 0,
            r.dir == Direction::Idle,
    {
        let head_pos = Vec2::new((width / 2) as i32, (height / 2) as i32);
        let mut tail: Vec<Point2D> = Vec::new();
        let mut i: usize = 1;
        while i < length
            invariant
                1 <= i,
                i <= length || i == 1,
                length <= i32::MAX,
                tail@.len() == i - 1,
                0 <= head_pos.x,
                forall|j: int|
                    0 <= j < tail@.len() ==> #[trigger] tail@[j] == (Vec2 {
                        x: (head_pos.x - (j + 1)) as i32,
                        y: head_pos.y,
                    }),
            decreases length - i,
        {
            tail.push(head_pos.sub(Vec2::new(i as i32, 0)));
            i = i + 1;
        }
        Snake { pos: head_pos, tail, dir: Direction::Idle, queued_grow: 0 }
    }

    /// One movement step: the old head becomes the first body segment, the
    /// tail-most segment is dropped unless growth is owed, and the head moves
    /// one cell in the current direction. An idle creature does not change.
    pub fn tick(&mut self)
        requires
            old(self)@.can_advance(),
        ensures
            final(self)@ == old(self)@.advanced(),
            old(self).dir == Direction::Idle ==> final(self)@ == old(self)@,
    {
        if self.dir == Direction::Idle {
            return ;
        }
        if self.queued_grow == 0 {
            self.tail.pop();
        } else {
            self.queued_grow = self.queued_grow - 1;
        }
        self.tail.insert(0, self.pos);
        proof {
            assert(self.tail@ =~= seq![old(self).pos] + old(self)@.kept_tail());
        }
        let d = self.dir.vec();
        self.pos.add_assign(d);
    }

    /// Whether the cell is the head or one of the body segments.
    pub fn contains_point(&self, point: Point2D) -> (r: bool)
        ensures
            r == self@.occupies(point),
    {
        if self.pos == point {
            return true;
        }
        let mut i: usize = 0;
        while i < self.tail.len()
            invariant
                i <= self.tail@.len(),
                forall|j: int| 0 <= j < i ==> self.tail@[j] != point,
            decreases self.tail@.len() - i,
        {
            if self.tail[i] == point {
                return true;
            }
            i = i + 1;
        }
        false
    }

    /// Whether the head lies on one of the body segments.
    pub fn collides_tail(&self) -> (r: bool)
        ensures
            r == self@.bites_itself(),
    {
        let mut i: usize = 0;
        while i < self.tail.len()
            invariant
                i <= self.tail@.len(),
                forall|j: int| 0 <= j < i ==> self.tail@[j] != self.pos,
            decreases self.tail@.len() - i,
        {
            if self.tail[i] == self.pos {
                return true;
            }
            i = i + 1;
        }
        false
    }

    /// Owes the body one more segment; it appears over the next step.
    pub fn grow(&mut self)
        requires
            old(self).queued_grow < u32::MAX,
        ensures
            final(self)@ == old(self)@.grown(),
    {
        self.queued_grow = self.queued_grow + 1;
    }

    /// Takes the requested direction unless it is the reverse of the current
    /// one, so the creature never turns straight back onto itself.
    pub fn set_direction(&mut self, d: Direction)
        ensures
            final(self)@ == old(self)@.steered(d),
            d == old(self).dir.reverse() ==> final(self)@ == old(self)@,
    {
        if d != self.dir.opposite() {
            self.dir = d;
        }
    }

    /// Applies the requests gathered between two steps: the last one that
    /// the reversal gate accepts against the current direction wins.
    pub fn steer(&mut self, requests: &Vec<Direction>)
        ensures
            final(self)@ == match last_accepted(old(self).dir, requests@) {
                Option::Some(d) => (SnakeView { dir: d, ..old(self)@ }),
                Option::None => old(self)@,
            },
    {
        let back = self.dir.opposite();
        let mut chosen: Option<Direction> = Option::None;
        let mut i: usize = 0;
        while i < requests.len()
            invariant
                i <= requests@.len(),
                back == self.dir.reverse(),
                chosen == last_accepted(self.dir, requests@.take(i as int)),
            decreases requests@.len() - i,
        {
            let d = requests[i];
            proof {
                assert(requests@.take(i + 1).drop_last() =~= requests@.take(i as int));
            }
            if d != back {
                chosen = Option::Some(d);
            }
            i = i + 1;
        }
        proof {
            assert(requests@.take(i as int) =~= requests@);
        }
        if let Option::Some(d) = chosen {
            self.dir = d;
        }
    }
}

} // verus!
