use vstd::prelude::*;
use crate::coordinates::{Coordinates, Heading};

verus! {

/// The `i`-th cell, counted from zero, of a ship laid from `origin` along
/// `heading`.
pub open spec fn cell(origin: Coordinates, heading: Heading, i: int) -> (int, int) {
    match heading {
        Heading::East => (origin.x + i, origin.y as int),
        Heading::South => (origin.x as int, origin.y + i),
    }
}

/// The last cell of a ship of `length` segments stays within the range of
/// `u16`.
pub open spec fn extent_fits(origin: Coordinates, heading: Heading, length: u16) -> bool {
    match heading {
        Heading::East => origin.x + length <= u16::MAX + 1,
        Heading::South => origin.y + length <= u16::MAX + 1,
    }
}

/// One occupied cell of a ship.
#[derive(Debug, Clone, Copy, PartialEq, Eq, Structural)]
pub struct ShipSegment {
    pub coordinates: Coordinates,
}

impl ShipSegment {
    pub fn new(coordinates: Coordinates) -> (r: ShipSegment)
        ensures
            r.coordinates == coordinates,
    {
        ShipSegment { coordinates }
    }
}

/// A ship: an origin, a heading, a length and the cells it covers, derived
/// once from the other three.
#[derive(Debug)]
pub struct Ship {
    pub origin: Coordinates,
    pub heading: Heading,
    pub length: u16,
    pub segments: Vec<ShipSegment>,
}

impl Ship {
    /// The covered cells as positions, in order from the origin.
    pub open spec fn cells(&self) -> Seq<(int, int)> {
        self.segments@.map_values(|s: ShipSegment| s.coordinates.pos())
    }

    /// The segments are exactly the `length` cells from the origin along the
    /// heading.
    pub open spec fn wf(&self) -> bool {
        &&& self.segments@.len() == self.length
        &&& forall|i: int|
            0 <= i < self.length ==> #[trigger] self.segments@[i].coordinates.pos() == cell(
                self.origin,
                self.heading,
                i,
            )
    }

    /// Lays out a ship of `length` segments from `origin` along `heading`.
    /// Whether it may stand on a board is decided elsewhere.
    pub fn new(origin: Coordinates, heading: Heading, length: u16) -> (r: Ship)
        requires
            extent_fits(origin, heading, length),
        ensures
            r.wf(),
            r.origin == origin,
            r.heading == heading,
            r.length == length,
    {
        let mut segments: Vec<ShipSegment> = Vec::new();
        let mut n: u16 = 0;
        while n < length
            invariant
                n <= length,
                extent_fits(origin, heading, length),
                segments@.len() == n,
                forall|i: int|
                    0 <= i < n ==> #[trigger] segments@[i].coordinates.pos() == cell(
                        origin,
                        heading,
                        i,
                    ),
            decreases length - n,
        {
            let c = match heading {
                Heading::East => Coordinates { x: origin.x + n, y: origin.y },
                Heading::South => Coordinates { x: origin.x, y: origin.y + n },
            };
            segments.push(ShipSegment::new(c));
            n = n + 1;
        }
        Ship { origin, heading, length, segments }
    }

    /// A two-cell ship in the top left corner, heading East.
    pub fn default() -> (r: Ship)
        ensures
            r.wf(),
            r.origin.x == 0,
            r.origin.y == 0,
            r.heading == Heading::East,
            r.length == 2,
    {
        Ship::new(Coordinates::default(), Heading::default(), 2)
    }

    /// The coordinates of the segments, in order from the origin.
    pub fn get_segment_coordinates(&self) -> (r: Vec<Coordinates>)
        ensures
            r@.len() == self.segments@.len(),
            forall|i: int|
                0 <= i < r@.len() ==> #[trigger] r@[i] == self.segments@[i].coordinates,
    {
        let mut out: Vec<Coordinates> = Vec::new();
        let mut i: usize = 0;
        while i < self.segments.len()
            invariant
                i <= self.segments@.len(),
                out@.len() == i,
                forall|k: int| 0 <= k < i ==> #[trigger] out@[k] == self.segments@[k].coordinates,
            decreases self.segments@.len() - i,
        {
            out.push(self.segments[i].coordinates);
            i = i + 1;
        }
        out
    }

    /// The same ship one row up.
    pub fn move_up(self) -> (r: Ship)
        requires
            self.origin.y > 0,
            extent_fits(self.origin, self.heading, self.length),
        ensures
            r.wf(),
            r.origin.x == self.origin.x,
            r.origin.y == self.origin.y - 1,
            r.heading == self.heading,
            r.length == self.length,
    {
        Ship::new(self.origin.get_above(), self.heading, self.length)
    }

    /// The same ship one column to the right.
    pub fn move_right(self) -> (r: Ship)
        requires
            self.origin.x < u16::MAX,
            extent_fits(
                (Coordinates { x: (self.origin.x + 1) as u16, y: self.origin.y }),
                self.heading,
                self.length,
            ),
        ensures
            r.wf(),
            r.origin.x == self.origin.x + 1,
            r.origin.y == self.origin.y,
            r.heading == self.heading,
            r.length == self.length,
    {
        Ship::new(self.origin.get_right(), self.heading, self.length)
    }

    /// The same ship one row down.
    pub fn move_down(self) -> (r: Ship)
        requires
            self.origin.y < u16::MAX,
            extent_fits(
                (Coordinates { x: self.origin.x, y: (self.origin.y + 1) as u16 }),
                self.heading,
                self.length,
            ),
        ensures
            r.wf(),
            r.origin.x == self.origin.x,
            r.origin.y == self.origin.y + 1,
            r.heading == self.heading,
            r.length == self.length,
    {
        Ship::new(self.origin.get_below(), self.heading, self.length)
    }

    /// The same ship one column to the left.
    pub fn move_left(self) -> (r: Ship)
        requires
            self.origin.x > 0,
            extent_fits(self.origin, self.heading, self.length),
        ensures
            r.wf(),
            r.origin.x == self.origin.x - 1,
            r.origin.y == self.origin.y,
            r.heading == self.heading,
            r.length == self.length,
    {
        Ship::new(self.origin.get_left(), self.heading, self.length)
    }

    /// The same ship turned to the other heading about its origin.
    pub fn flip(self) -> (r: Ship)
        requires
            extent_fits(self.origin, self.heading.flipped(), self.length),
        ensures
            r.wf(),
            r.origin == self.origin,
            r.heading == self.heading.flipped(),
            r.length == self.length,
    {
        Ship::new(self.origin, self.heading.flip(), self.length)
    }
}

impl Clone for Ship {
    fn clone(&self) -> (r: Ship)
        ensures
            r.origin == self.origin,
            r.heading == self.heading,
            r.length == self.length,
            r.segments@ == self.segments@,
    {
        let mut segments: Vec<ShipSegment> = Vec::new();
        let mut i: usize = 0;
        while i < self.segments.len()
            invariant
                i <= self.segments@.len(),
                segments@ == self.segments@.subrange(0, i as int),
            decreases self.segments@.len() - i,
        {
            segments.push(self.segments[i]);
            i = i + 1;
        }
        Ship { origin: self.origin, heading: self.heading, length: self.length, segments }
    }
}

/// A ship is a function of its origin, heading and length: two well-formed
/// ships that agree on those have the same segments.
pub proof fn lemma_ship_determined(a: Ship, b: Ship)
    requires
        a.wf(),
        b.wf(),
        a.origin == b.origin,
        a.heading == b.heading,
        a.length == b.length,
    ensures
        a.segments@ == b.segments@,
{
    assert forall|i: int| 0 <= i < a.segments@.len() implies a.segments@[i] == b.segments@[i] by {
        assert(a.segments@[i].coordinates.pos() == b.segments@[i].coordinates.pos());
    }
    assert(a.segments@ =~= b.segments@);
}

} // verus!
