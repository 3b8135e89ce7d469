use vstd::prelude::*;

verus! {

/// A point of the integer plane: what a `Position` stands for in contracts.
pub struct Point {
    pub x: int,
    pub y: int,
}

impl View for Position {
    type V = Point;

    open spec fn view(&self) -> Point {
        Point { x: self.x as int, y: self.y as int }
    }
}

/// A pair of unsigned coordinates. The editor uses it for the cursor in
/// character space, the cursor in render space, the scroll offset and the
/// window extent.
#[derive(Clone, Copy, Debug, PartialEq, Eq, Structural)]
pub struct Position {
    pub x: usize,
    pub y: usize,
}

impl Position {
    pub fn new(x: usize, y: usize) -> (p: Position)
        ensures
            p.x == x,
            p.y == y,
    {
        Position { x, y }
    }

    /// Component-wise difference, stopping at zero.
    pub open spec fn minus(self, other: Position) -> Position {
        Position {
            x: if self.x >= other.x { (self.x - other.x) as usize } else { 0 },
            y: if self.y >= other.y { (self.y - other.y) as usize } else { 0 },
        }
    }

    /// Component-wise sum, stopping at `usize::MAX`.
    pub open spec fn plus(self, other: Position) -> Position {
        Position {
            x: if self.x + other.x <= usize::MAX { (self.x + other.x) as usize } else { usize::MAX },
            y: if self.y + other.y <= usize::MAX { (self.y + other.y) as usize } else { usize::MAX },
        }
    }

    pub fn saturating_sub(self, other: Position) -> (p: Position)
        ensures
            p == self.minus(other),
    {
        Position { x: self.x.saturating_sub(other.x), y: self.y.saturating_sub(other.y) }
    }

    pub fn saturating_add(self, other: Position) -> (p: Position)
        ensures
            p == self.plus(other),
    {
        Position { x: self.x.saturating_add(other.x), y: self.y.saturating_add(other.y) }
    }
}

} // verus!
