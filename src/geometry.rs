use vstd::prelude::*;

verus! {

/// Largest coordinate magnitude of a position or offset; the sum or difference
/// of two such values fits in an `i64`.
pub const COORD_LIMIT: i64 = 0x1fff_ffff_ffff_ffff;

/// A position, offset or aim vector in integer world sub-units.
#[derive(Clone, Copy, Debug, PartialEq, Eq, Structural)]
pub struct Point {
    pub x: i64,
    pub y: i64,
}

impl Point {
    pub open spec fn bounded(self) -> bool {
        -COORD_LIMIT <= self.x <= COORD_LIMIT && -COORD_LIMIT <= self.y <= COORD_LIMIT
    }

    pub open spec fn add_spec(self, d: Point) -> Point {
        Point { x: (self.x + d.x) as i64, y: (self.y + d.y) as i64 }
    }

    pub open spec fn sub_spec(self, d: Point) -> Point {
        Point { x: (self.x - d.x) as i64, y: (self.y - d.y) as i64 }
    }

    pub fn new(x: i64, y: i64) -> (r: Point)
        ensures
            r.x == x,
            r.y == y,
    {
        Point { x, y }
    }

    /// This point moved by `d`.
    pub fn plus(&self, d: &Point) -> (r: Point)
        requires
            self.bounded(),
            d.bounded(),
        ensures
            r.x == self.x + d.x,
            r.y == self.y + d.y,
            r == self.add_spec(*d),
    {
        Point { x: self.x + d.x, y: self.y + d.y }
    }

    /// The vector from `from` to this point.
    pub fn minus(&self, from: &Point) -> (r: Point)
        requires
            self.bounded(),
            from.bounded(),
        ensures
            r.x == self.x - from.x,
            r.y == self.y - from.y,
            r == self.sub_spec(*from),
    {
        Point { x: self.x - from.x, y: self.y - from.y }
    }
}

} // verus!
