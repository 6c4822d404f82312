use vstd::prelude::*;

verus! {

/// A zero-based cell position on a board.
#[derive(Debug, Clone, Copy, PartialEq, Eq, Structural)]
pub struct Coordinates {
    pub x: u16,
    pub y: u16,
}

impl Coordinates {
    /// The position as a pair of mathematical integers.
    pub open spec fn pos(self) -> (int, int) {
        (self.x as int, self.y as int)
    }

    /// The cell one row up; the caller keeps `y` above zero.
    pub fn get_above(self) -> (r: Coordinates)
        requires
            self.y > 0,
        ensures
            r.x == self.x,
            r.y == self.y - 1,
    {
        Coordinates { y: self.y - 1, ..self }
    }

    /// The cell one column to the right.
    pub fn get_right(self) -> (r: Coordinates)
        requires
            self.x < u16::MAX,
        ensures
            r.x == self.x + 1,
            r.y == self.y,
    {
        Coordinates { x: self.x + 1, ..self }
    }

    /// The cell one row down.
    pub fn get_below(self) -> (r: Coordinates)
        requires
            self.y < u16::MAX,
        ensures
            r.x == self.x,
            r.y == self.y + 1,
    {
        Coordinates { y: self.y + 1, ..self }
    }

    /// The cell one column to the left; the caller keeps `x` above zero.
    pub fn get_left(self) -> (r: Coordinates)
        requires
            self.x > 0,
        ensures
            r.x == self.x - 1,
            r.y == self.y,
    {
        Coordinates { x: self.x - 1, ..self }
    }
}

impl Default for Coordinates {
    fn default() -> (r: Coordinates)
        ensures
            r.x == 0,
            r.y == 0,
    {
        Coordinates { x: 0, y: 0 }
    }
}

/// The two orientations a ship may have: its segments run from the origin
/// towards growing `x` (East) or growing `y` (South).
#[derive(Debug, Clone, Copy, PartialEq, Eq, Structural)]
pub enum Heading {
    East,
    South,
}

impl Heading {
    pub open spec fn flipped(self) -> Heading {
        match self {
            Heading::East => Heading::South,
            Heading::South => Heading::East,
        }
    }

    /// The other heading.
    pub fn flip(&self) -> (r: Heading)
        ensures
            r == self.flipped(),
    {
        match self {
            Heading::East => Heading::South,
            Heading::South => Heading::East,
        }
    }
}

impl Default for Heading {
    fn default() -> (r: Heading)
        ensures
            r == Heading::East,
    {
        Heading::East
    }
}

/// The selection marker that a player moves over the opposing board.
#[derive(Debug, Clone, Copy, PartialEq, Eq, Structural)]
pub struct Cursor {
    pub origin: Coordinates,
}

impl Cursor {
    /// A cursor in the top left cell.
    pub fn default() -> (r: Cursor)
        ensures
            r.origin.x == 0,
            r.origin.y == 0,
    {
        Cursor { origin: Coordinates::default() }
    }

    pub fn move_up(self) -> (r: Cursor)
        requires
            self.origin.y > 0,
        ensures
            r.origin.x == self.origin.x,
            r.origin.y == self.origin.y - 1,
    {
        Cursor { origin: self.origin.get_above() }
    }

    pub fn move_right(self) -> (r: Cursor)
        requires
            self.origin.x < u16::MAX,
        ensures
            r.origin.x == self.origin.x + 1,
            r.origin.y == self.origin.y,
    {
        Cursor { origin: self.origin.get_right() }
    }

    pub fn move_down(self) -> (r: Cursor)
        requires
            self.origin.y < u16::MAX,
        ensures
            r.origin.x == self.origin.x,
            r.origin.y == self.origin.y + 1,
    {
        Cursor { origin: self.origin.get_below() }
    }

    pub fn move_left(self) -> (r: Cursor)
        requires
            self.origin.x > 0,
        ensures
            r.origin.x == self.origin.x - 1,
            r.origin.y == self.origin.y,
    {
        Cursor { origin: self.origin.get_left() }
    }
}

} // verus!
