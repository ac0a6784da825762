//! Integer points and displacements on the grid.
use vstd::prelude::*;

verus! {

/// A point or a displacement with integer coordinates.
#[derive(PartialEq, Eq, Structural, Clone, Copy, Debug)]
pub struct Vec2 {
    pub x: i32,
    pub y: i32,
}

/// A grid cell, written as a vector from the origin.
pub type Point2D = Vec2;

/// Whether a pair of mathematical integers fits in a `Vec2`.
pub open spec fn fits(x: int, y: int) -> bool {
    i32::MIN <= x <= i32::MAX && i32::MIN <= y <= i32::MAX
}

impl Vec2 {
    /// The componentwise sum, as mathematical integers.
    pub open spec fn plus(self, rhs: Vec2) -> Vec2 {
        Vec2 { x: (self.x + rhs.x) as i32, y: (self.y + rhs.y) as i32 }
    }

    /// The componentwise difference, as mathematical integers.
    pub open spec fn minus(self, rhs: Vec2) -> Vec2 {
        Vec2 { x: (self.x - rhs.x) as i32, y: (self.y - rhs.y) as i32 }
    }

    /// The vector with the given coordinates.
    pub fn new(x: i32, y: i32) -> (r: Vec2)
        ensures
            r.x == x,
            r.y == y,
    {
        Vec2 { x, y }
    }

    /// Componentwise addition.
    pub fn add(self, rhs: Vec2) -> (r: Vec2)
        requires
            fits(self.x + rhs.x, self.y + rhs.y),
        ensures
            r == self.plus(rhs),
            r.x == self.x + rhs.x,
            r.y == self.y + rhs.y,
    {
        Vec2 { x: self.x + rhs.x, y: self.y + rhs.y }
    }

    /// Componentwise subtraction.
    pub fn sub(self, rhs: Vec2) -> (r: Vec2)
        requires
            fits(self.x - rhs.x, self.y - rhs.y),
        ensures
            r == self.minus(rhs),
            r.x == self.x - rhs.x,
            r.y == self.y - rhs.y,
    {
        Vec2 { x: self.x - rhs.x, y: self.y - rhs.y }
    }

    /// Adds `rhs` to this vector in place.
    pub fn add_assign(&mut self, rhs: Vec2)
        requires
            fits(old(self).x + rhs.x, old(self).y + rhs.y),
        ensures
            *final(self) == old(self).plus(rhs),
    {
        self.x = self.x + rhs.x;
        self.y = self.y + rhs.y;
    }

    /// Subtracts `rhs` from this vector in place.
    pub fn sub_assign(&mut self, rhs: Vec2)
        requires
            fits(old(self).x - rhs.x, old(self).y - rhs.y),
        ensures
            *final(self) == old(self).minus(rhs),
    {
        self.x = self.x - rhs.x;
        self.y = self.y - rhs.y;
    }
}

} // verus!
