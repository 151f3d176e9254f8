//! Axis-aligned rectangle primitives on the fixed-point grid.
//!
//! Rectangles are always stored rounded to the centi-unit grid: the
//! constructor and every producing operation round their coordinates, so two
//! independently computed but numerically equal rectangles are equal field
//! by field.

use crate::rround::{fallback_round, spec_round, ROUND_INPUT_LIMIT};
use vstd::math::abs;
use vstd::math::min;
use vstd::prelude::*;

verus! {

/// Largest coordinate magnitude the geometry operations accept; wide enough
/// for any level, small enough that sums and differences never overflow.
pub const GEO_LIMIT: i64 = 1_000_000_000_000_000;

/// A 2D vector in raw fixed-point units.
#[derive(Clone, Copy, Debug, PartialEq, Eq, Structural)]
pub struct Point {
    pub x: i64,
    pub y: i64,
}

/// Manhattan length of a vector, as a mathematical integer.
pub open spec fn spec_manhattan(x: int, y: int) -> int {
    abs(x) as int + abs(y) as int
}

impl Point {
    pub fn new(x: i64, y: i64) -> (p: Point)
        ensures
            p.x == x,
            p.y == y,
    {
        Point { x, y }
    }

    /// Sum of the absolute values of both components.
    pub fn manhattan_len(&self) -> (r: i64)
        requires
            -3 * GEO_LIMIT <= self.x <= 3 * GEO_LIMIT,
            -3 * GEO_LIMIT <= self.y <= 3 * GEO_LIMIT,
        ensures
            r as int == spec_manhattan(self.x as int, self.y as int),
    {
        let ax: i64 = if self.x < 0 {
            -self.x
        } else {
            self.x
        };
        let ay: i64 = if self.y < 0 {
            -self.y
        } else {
            self.y
        };
        ax + ay
    }
}

/// An axis-aligned rectangle; `x1 <= x2` and `y1 <= y2` are not required by
/// the operations, mirroring the permissive behaviour of the model.
#[derive(Clone, Copy, Debug, PartialEq, Eq, Structural)]
pub struct Rectangle {
    pub x1: i64,
    pub x2: i64,
    pub y1: i64,
    pub y2: i64,
}

/// Every coordinate lies on the centi-unit grid.
pub open spec fn spec_on_grid(r: Rectangle) -> bool {
    &&& r.x1 as int % 100 == 0
    &&& r.x2 as int % 100 == 0
    &&& r.y1 as int % 100 == 0
    &&& r.y2 as int % 100 == 0
}

/// All four coordinates within the geometry bound.
pub open spec fn spec_rect_bounded(r: Rectangle, limit: int) -> bool {
    &&& -limit <= r.x1 as int <= limit
    &&& -limit <= r.x2 as int <= limit
    &&& -limit <= r.y1 as int <= limit
    &&& -limit <= r.y2 as int <= limit
}

/// Inclusive axis-aligned overlap test.
pub open spec fn spec_collides(a: Rectangle, b: Rectangle) -> bool {
    &&& a.x1 <= b.x2
    &&& a.x2 >= b.x1
    &&& a.y1 <= b.y2
    &&& a.y2 >= b.y1
}

/// The four candidate separation vectors of `a` against `b` (push right,
/// push left, push up, push down) and the first one of minimal Manhattan
/// length, in that order.
pub open spec fn spec_mpv(a: Rectangle, b: Rectangle) -> (int, int) {
    let east: int = a.x2 - b.x1;
    let west: int = a.x1 - b.x2;
    let north: int = a.y2 - b.y1;
    let south: int = a.y1 - b.y2;
    let b0 = (east, 0int);
    let b1 = if spec_manhattan(west, 0) < spec_manhattan(b0.0, b0.1) {
        (west, 0int)
    } else {
        b0
    };
    let b2 = if spec_manhattan(0, north) < spec_manhattan(b1.0, b1.1) {
        (0int, north)
    } else {
        b1
    };
    if spec_manhattan(0, south) < spec_manhattan(b2.0, b2.1) {
        (0int, south)
    } else {
        b2
    }
}

/// Collision is symmetric: `a` overlaps `b` exactly when `b` overlaps `a`.
pub proof fn lemma_collides_symmetric(a: Rectangle, b: Rectangle)
    ensures
        spec_collides(a, b) == spec_collides(b, a),
{
}

/// The minimum-penetration vector has Manhattan length equal to the least of
/// the four axis-separation magnitudes.
pub proof fn lemma_mpv_is_minimal(a: Rectangle, b: Rectangle)
    ensures
        ({
            let (mx, my) = spec_mpv(a, b);
            spec_manhattan(mx, my) == min(
                min(abs(a.x2 - b.x1) as int, abs(a.x1 - b.x2) as int),
                min(abs(a.y2 - b.y1) as int, abs(a.y1 - b.y2) as int),
            )
        }),
{
}

impl Rectangle {
    /// Construct a rectangle, rounding every coordinate to the grid.
    pub fn new(x1: i64, x2: i64, y1: i64, y2: i64) -> (r: Rectangle)
        requires
            -GEO_LIMIT <= x1 <= GEO_LIMIT,
            -GEO_LIMIT <= x2 <= GEO_LIMIT,
            -GEO_LIMIT <= y1 <= GEO_LIMIT,
            -GEO_LIMIT <= y2 <= GEO_LIMIT,
        ensures
            r.x1 as int == spec_round(x1 as int, 2),
            r.x2 as int == spec_round(x2 as int, 2),
            r.y1 as int == spec_round(y1 as int, 2),
            r.y2 as int == spec_round(y2 as int, 2),
            spec_on_grid(r),
            spec_rect_bounded(r, GEO_LIMIT as int + 100),
    {
        let r = Rectangle {
            x1: fallback_round(x1, 2),
            x2: fallback_round(x2, 2),
            y1: fallback_round(y1, 2),
            y2: fallback_round(y2, 2),
        };
        proof {
            crate::rround::lemma_round_is_on_grid(x1 as int);
            crate::rround::lemma_round_is_on_grid(x2 as int);
            crate::rround::lemma_round_is_on_grid(y1 as int);
            crate::rround::lemma_round_is_on_grid(y2 as int);
            crate::rround::lemma_rhe_near(x1 as int, 100);
            crate::rround::lemma_rhe_near(x2 as int, 100);
            crate::rround::lemma_rhe_near(y1 as int, 100);
            crate::rround::lemma_rhe_near(y2 as int, 100);
        }
        r
    }

    /// Inclusive overlap test.
    pub fn collides(&self, other: &Rectangle) -> (r: bool)
        ensures
            r == spec_collides(*self, *other),
    {
        self.x1 <= other.x2 && self.x2 >= other.x1 && self.y1 <= other.y2 && self.y2 >= other.y1
    }

    /// Minimum-penetration vector: of the four axis separation vectors, the
    /// first with minimal Manhattan length.
    pub fn get_mpv(&self, other: &Rectangle) -> (r: Point)
        requires
            spec_rect_bounded(*self, GEO_LIMIT as int + 100),
            spec_rect_bounded(*other, GEO_LIMIT as int + 100),
        ensures
            (r.x as int, r.y as int) == spec_mpv(*self, *other),
    {
        let east = Point { x: self.x2 - other.x1, y: 0 };
        let west = Point { x: self.x1 - other.x2, y: 0 };
        let north = Point { x: 0, y: self.y2 - other.y1 };
        let south = Point { x: 0, y: self.y1 - other.y2 };
        let mut best = east;
        if west.manhattan_len() < best.manhattan_len() {
            best = west;
        }
        if north.manhattan_len() < best.manhattan_len() {
            best = north;
        }
        if south.manhattan_len() < best.manhattan_len() {
            best = south;
        }
        best
    }

    /// The rectangles share a full edge.
    pub fn has_common_edge(&self, other: &Rectangle) -> (r: bool)
        ensures
            r == ({
                if self.x1 == other.x1 && self.x2 == other.x2 {
                    self.y1 == other.y2 || self.y2 == other.y1
                } else if self.y1 == other.y1 && self.y2 == other.y2 {
                    self.x1 == other.x2 || self.x2 == other.x1
                } else {
                    false
                }
            }),
    {
        if self.x1 == other.x1 && self.x2 == other.x2 {
            return self.y1 == other.y2 || self.y2 == other.y1;
        }
        if self.y1 == other.y1 && self.y2 == other.y2 {
            return self.x1 == other.x2 || self.x2 == other.x1;
        }
        false
    }

    /// Grow the rectangle by `amount` on every side, re-rounding to the grid.
    pub fn expand(&self, amount: i64) -> (r: Rectangle)
        requires
            spec_rect_bounded(*self, GEO_LIMIT as int),
            -GEO_LIMIT <= amount <= GEO_LIMIT,
        ensures
            r.x1 as int == spec_round(self.x1 - amount, 2),
            r.x2 as int == spec_round(self.x2 + amount, 2),
            r.y1 as int == spec_round(self.y1 - amount, 2),
            r.y2 as int == spec_round(self.y2 + amount, 2),
            spec_on_grid(r),
    {
        let r = Rectangle {
            x1: fallback_round(self.x1 - amount, 2),
            x2: fallback_round(self.x2 + amount, 2),
            y1: fallback_round(self.y1 - amount, 2),
            y2: fallback_round(self.y2 + amount, 2),
        };
        proof {
            crate::rround::lemma_round_is_on_grid(self.x1 - amount);
            crate::rround::lemma_round_is_on_grid(self.x2 + amount);
            crate::rround::lemma_round_is_on_grid(self.y1 - amount);
            crate::rround::lemma_round_is_on_grid(self.y2 + amount);
        }
        r
    }

    /// Translate the rectangle by `(dx, dy)`, re-rounding to the grid.
    pub fn offset(&self, dx: i64, dy: i64) -> (r: Rectangle)
        requires
            spec_rect_bounded(*self, GEO_LIMIT as int),
            -GEO_LIMIT <= dx <= GEO_LIMIT,
            -GEO_LIMIT <= dy <= GEO_LIMIT,
        ensures
            r.x1 as int == spec_round(self.x1 + dx, 2),
            r.x2 as int == spec_round(self.x2 + dx, 2),
            r.y1 as int == spec_round(self.y1 + dy, 2),
            r.y2 as int == spec_round(self.y2 + dy, 2),
            spec_on_grid(r),
            spec_rect_bounded(r, 2 * GEO_LIMIT as int + 100),
    {
        let r = Rectangle {
            x1: fallback_round(self.x1 + dx, 2),
            x2: fallback_round(self.x2 + dx, 2),
            y1: fallback_round(self.y1 + dy, 2),
            y2: fallback_round(self.y2 + dy, 2),
        };
        proof {
            crate::rround::lemma_round_is_on_grid(self.x1 + dx);
            crate::rround::lemma_round_is_on_grid(self.x2 + dx);
            crate::rround::lemma_round_is_on_grid(self.y1 + dy);
            crate::rround::lemma_round_is_on_grid(self.y2 + dy);
            crate::rround::lemma_rhe_near(self.x1 + dx, 100);
            crate::rround::lemma_rhe_near(self.x2 + dx, 100);
            crate::rround::lemma_rhe_near(self.y1 + dy, 100);
            crate::rround::lemma_rhe_near(self.y2 + dy, 100);
        }
        r
    }

    /// Round every coordinate to the grid; the identity on rectangles that
    /// are already on it.
    pub fn rounded(self) -> (r: Rectangle)
        requires
            spec_rect_bounded(self, 2 * GEO_LIMIT as int + 100),
        ensures
            r.x1 as int == spec_round(self.x1 as int, 2),
            r.x2 as int == spec_round(self.x2 as int, 2),
            r.y1 as int == spec_round(self.y1 as int, 2),
            r.y2 as int == spec_round(self.y2 as int, 2),
            spec_on_grid(r),
            spec_on_grid(self) ==> r == self,
    {
        let r = Rectangle {
            x1: fallback_round(self.x1, 2),
            x2: fallback_round(self.x2, 2),
            y1: fallback_round(self.y1, 2),
            y2: fallback_round(self.y2, 2),
        };
        proof {
            crate::rround::lemma_round_is_on_grid(self.x1 as int);
            crate::rround::lemma_round_is_on_grid(self.x2 as int);
            crate::rround::lemma_round_is_on_grid(self.y1 as int);
            crate::rround::lemma_round_is_on_grid(self.y2 as int);
            if spec_on_grid(self) {
                crate::rround::lemma_on_grid_fixed(self.x1 as int);
                crate::rround::lemma_on_grid_fixed(self.x2 as int);
                crate::rround::lemma_on_grid_fixed(self.y1 as int);
                crate::rround::lemma_on_grid_fixed(self.y2 as int);
            }
        }
        r
    }
}

} // verus!
