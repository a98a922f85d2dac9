//! An immutable 2D integer coordinate with distance and containment queries.

use vstd::prelude::*;

verus! {

/// A 2D coordinate on the image grid.
#[derive(Debug, Clone, Copy, PartialEq, Eq, Structural)]
pub struct Point {
    pub x: u32,
    pub y: u32,
}

impl Point {
    pub fn new(x: u32, y: u32) -> (r: Self)
        ensures
            r == (Point { x, y }),
    {
        Self { x, y }
    }

    /// The square of the Euclidean distance between two points.
    ///
    /// The distance itself is generally irrational; callers that need the
    /// Euclidean length take the square root of this exact integer.
    pub fn distance_squared(&self, other: &Point) -> (r: u128)
        ensures
            r == (self.x - other.x) * (self.x - other.x)
                + (self.y - other.y) * (self.y - other.y),
    {
        let dx: u64 = if self.x >= other.x {
            (self.x - other.x) as u64
        } else {
            (other.x - self.x) as u64
        };
        let dy: u64 = if self.y >= other.y {
            (self.y - other.y) as u64
        } else {
            (other.y - self.y) as u64
        };
        proof {
            assert((dx as int) * (dx as int) < 0x10000000000000000
                && (dy as int) * (dy as int) < 0x10000000000000000) by (nonlinear_arith)
                requires
                    0 <= dx < 0x100000000,
                    0 <= dy < 0x100000000,
            ;
            assert((dx as int) * (dx as int) == (self.x - other.x) * (self.x - other.x)
                && (dy as int) * (dy as int) == (self.y - other.y) * (self.y - other.y))
                by (nonlinear_arith)
                requires
                    dx == self.x - other.x || dx == other.x - self.x,
                    dy == self.y - other.y || dy == other.y - self.y,
            ;
        }
        (dx as u128) * (dx as u128) + (dy as u128) * (dy as u128)
    }

    /// Inclusive bounding-box test: is `self` within the rectangle spanned by
    /// `point_min` and `point_max`?
    pub fn is_inside(&self, point_min: &Point, point_max: &Point) -> (r: bool)
        ensures
            r == (point_min.x <= self.x && self.x <= point_max.x
                && point_min.y <= self.y && self.y <= point_max.y),
    {
        self.x >= point_min.x && self.x <= point_max.x && self.y >= point_min.y
            && self.y <= point_max.y
    }
}

} // verus!
