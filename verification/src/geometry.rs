//! Screen-space geometry in integer logical units.
//!
//! The container's layout and hit-testing work on points, sizes and
//! rectangles whose coordinates are `i64` logical units, bounded by
//! [`MAX_COORD`] so that every sum and difference the container forms fits
//! the machine type. Origins may be negative (an overlay wider than the
//! window is centered past the left edge); sizes are never negative.

use vstd::prelude::*;

verus! {

/// Bound on every coordinate and extent the container works with.
pub const MAX_COORD: i64 = 1_000_000_000;

/// A position in screen space, in logical units.
#[derive(Clone, Copy, Debug, PartialEq, Eq, Structural)]
pub struct Point {
    pub x: i64,
    pub y: i64,
}

/// Extents of a region, in logical units.
#[derive(Clone, Copy, Debug, PartialEq, Eq, Structural)]
pub struct Size {
    pub width: i64,
    pub height: i64,
}

/// An axis-aligned rectangle: an origin (top-left corner) and a size.
#[derive(Clone, Copy, Debug, PartialEq, Eq, Structural)]
pub struct Rect {
    pub origin: Point,
    pub size: Size,
}

/// An RGBA color, as the theme hands it out.
#[derive(Clone, Copy, Debug, PartialEq, Eq, Structural)]
pub struct Color {
    pub r: u8,
    pub g: u8,
    pub b: u8,
    pub a: u8,
}

impl Point {
    pub open spec fn wf(self) -> bool {
        &&& -MAX_COORD <= self.x <= MAX_COORD
        &&& -MAX_COORD <= self.y <= MAX_COORD
    }

    pub fn new(x: i64, y: i64) -> (p: Point)
        ensures
            p.x == x,
            p.y == y,
    {
        Point { x, y }
    }
}

impl Size {
    pub open spec fn wf(self) -> bool {
        &&& 0 <= self.width <= MAX_COORD
        &&& 0 <= self.height <= MAX_COORD
    }

    pub fn new(width: i64, height: i64) -> (s: Size)
        ensures
            s.width == width,
            s.height == height,
    {
        Size { width, height }
    }
}

impl Rect {
    pub open spec fn wf(self) -> bool {
        &&& self.origin.wf()
        &&& self.size.wf()
    }

    /// The half-open membership test the container hit-tests with: a point
    /// on the left or top edge is inside, one on the right or bottom edge
    /// is not.
    pub open spec fn spec_contains(self, p: Point) -> bool {
        &&& self.origin.x <= p.x
        &&& p.x < self.origin.x + self.size.width
        &&& self.origin.y <= p.y
        &&& p.y < self.origin.y + self.size.height
    }

    pub fn new(origin: Point, size: Size) -> (r: Rect)
        ensures
            r.origin == origin,
            r.size == size,
    {
        Rect { origin, size }
    }

    pub fn contains(&self, p: Point) -> (r: bool)
        requires
            self.wf(),
        ensures
            r == self.spec_contains(p),
    {
        self.origin.x <= p.x && p.x < self.origin.x + self.size.width && self.origin.y <= p.y
            && p.y < self.origin.y + self.size.height
    }
}

} // verus!
