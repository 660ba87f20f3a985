//! Points, sizes and rectangles on the canvas, and snapping to the grid.
//!
//! Every coordinate is a whole number of canvas units held in an `i32`.
//! Sums and differences are taken exactly and then brought back into the
//! range of `i32`, so no operation here can overflow.

use vstd::prelude::*;

verus! {

/// A point of the canvas.
#[derive(Clone, Copy, Debug, PartialEq, Eq, Hash, Structural)]
pub struct Pos2 {
    pub x: i32,
    pub y: i32,
}

/// A displacement, or the extent of a rectangle.
#[derive(Clone, Copy, Debug, PartialEq, Eq, Hash, Structural)]
pub struct Vec2 {
    pub x: i32,
    pub y: i32,
}

/// An axis-aligned rectangle given by two corners; both corners belong to it.
#[derive(Clone, Copy, Debug, PartialEq, Eq, Hash, Structural)]
pub struct Rect {
    pub min: Pos2,
    pub max: Pos2,
}

/// The coordinate nearest to `v` that an `i32` holds.
pub open spec fn clamp_coord(v: int) -> int {
    if v < i32::MIN as int {
        i32::MIN as int
    } else if v > i32::MAX as int {
        i32::MAX as int
    } else {
        v
    }
}

/// Brings an exact intermediate result back into the coordinate range.
pub fn saturate(v: i128) -> (r: i32)
    ensures
        r as int == clamp_coord(v as int),
{
    if v < -2147483648 {
        i32::MIN
    } else if v > 2147483647 {
        i32::MAX
    } else {
        v as i32
    }
}

/// The smaller of two coordinates.
pub open spec fn min_int(a: int, b: int) -> int {
    if a <= b {
        a
    } else {
        b
    }
}

/// The larger of two coordinates.
pub open spec fn max_int(a: int, b: int) -> int {
    if a >= b {
        a
    } else {
        b
    }
}

impl Pos2 {
    pub fn new(x: i32, y: i32) -> (p: Pos2)
        ensures
            p == (Pos2 { x, y }),
    {
        Pos2 { x, y }
    }

    /// The point reached from `self` by `delta`, each axis saturating.
    pub open spec fn spec_offset(self, delta: Vec2) -> Pos2 {
        Pos2 {
            x: clamp_coord(self.x + delta.x) as i32,
            y: clamp_coord(self.y + delta.y) as i32,
        }
    }

    pub fn offset(self, delta: Vec2) -> (p: Pos2)
        ensures
            p == self.spec_offset(delta),
    {
        Pos2 {
            x: saturate(self.x as i128 + delta.x as i128),
            y: saturate(self.y as i128 + delta.y as i128),
        }
    }
}

impl Vec2 {
    pub fn new(x: i32, y: i32) -> (v: Vec2)
        ensures
            v == (Vec2 { x, y }),
    {
        Vec2 { x, y }
    }
}

impl Rect {
    /// The smallest rectangle that holds both points.
    pub open spec fn spec_from_two_pos(a: Pos2, b: Pos2) -> Rect {
        Rect {
            min: Pos2 { x: min_int(a.x as int, b.x as int) as i32, y: min_int(a.y as int, b.y as int) as i32 },
            max: Pos2 { x: max_int(a.x as int, b.x as int) as i32, y: max_int(a.y as int, b.y as int) as i32 },
        }
    }

    pub fn from_two_pos(a: Pos2, b: Pos2) -> (r: Rect)
        ensures
            r == Rect::spec_from_two_pos(a, b),
    {
        Rect {
            min: Pos2 { x: if a.x <= b.x { a.x } else { b.x }, y: if a.y <= b.y { a.y } else { b.y } },
            max: Pos2 { x: if a.x >= b.x { a.x } else { b.x }, y: if a.y >= b.y { a.y } else { b.y } },
        }
    }

    /// The rectangle with corner `min` and far corner `min + size`, saturating.
    pub open spec fn spec_from_min_size(min: Pos2, size: Vec2) -> Rect {
        Rect { min, max: min.spec_offset(size) }
    }

    pub fn from_min_size(min: Pos2, size: Vec2) -> (r: Rect)
        ensures
            r == Rect::spec_from_min_size(min, size),
    {
        Rect { min, max: min.offset(size) }
    }

    /// Whether `p` lies in the rectangle, its border included.
    pub open spec fn spec_contains(self, p: Pos2) -> bool {
        self.min.x <= p.x && p.x <= self.max.x && self.min.y <= p.y && p.y <= self.max.y
    }

    pub fn contains(&self, p: Pos2) -> (b: bool)
        ensures
            b == self.spec_contains(p),
    {
        self.min.x <= p.x && p.x <= self.max.x && self.min.y <= p.y && p.y <= self.max.y
    }

    /// Whether the two rectangles overlap or touch.
    pub open spec fn spec_intersects(self, other: Rect) -> bool {
        self.min.x <= other.max.x && other.min.x <= self.max.x && self.min.y <= other.max.y
            && other.min.y <= self.max.y
    }

    pub fn intersects(&self, other: Rect) -> (b: bool)
        ensures
            b == self.spec_intersects(other),
    {
        self.min.x <= other.max.x && other.min.x <= self.max.x && self.min.y <= other.max.y
            && other.min.y <= self.max.y
    }

    /// The extent along x; negative when the corners are crossed.
    pub fn width(&self) -> (w: i64)
        ensures
            w == self.max.x - self.min.x,
    {
        self.max.x as i64 - self.min.x as i64
    }

    /// The extent along y; negative when the corners are crossed.
    pub fn height(&self) -> (h: i64)
        ensures
            h == self.max.y - self.min.y,
    {
        self.max.y as i64 - self.min.y as i64
    }

    /// Whether neither extent is negative.
    pub open spec fn is_ordered(self) -> bool {
        self.min.x <= self.max.x && self.min.y <= self.max.y
    }
}

/// Two rectangles with ordered corners intersect exactly when some point of
/// the canvas lies in both.
pub proof fn lemma_intersects_iff_common_point(a: Rect, b: Rect)
    requires
        a.is_ordered(),
        b.is_ordered(),
    ensures
        a.spec_intersects(b) <==> exists|p: Pos2| a.spec_contains(p) && b.spec_contains(p),
{
    if a.spec_intersects(b) {
        let p = Pos2 {
            x: max_int(a.min.x as int, b.min.x as int) as i32,
            y: max_int(a.min.y as int, b.min.y as int) as i32,
        };
        assert(a.spec_contains(p) && b.spec_contains(p));
    }
}

} // verus!
