//! Exact drawing geometry: points, vectors, rectangles and the margins around them, all in dots.

use vstd::prelude::*;

use crate::units::{close, ConvertFrom, Dot, KeyUnit, Length, SUBDIVISIONS_PER_DOT};

verus! {

/// The length in subdivisions of a length in dots.
pub open spec fn span(d: Dot) -> int {
    d.subdivision_count()
}

/// Whether a length is at most `bound` subdivisions long either way.
pub open spec fn within(d: Dot, bound: int) -> bool {
    -bound <= span(d) <= bound
}

/// A point
#[derive(Debug, Clone, Copy, PartialEq, Eq, Structural)]
pub struct Point {
    /// The x coordinate
    pub x: Dot,
    /// The y coordinate
    pub y: Dot,
}

/// A vector
#[derive(Debug, Clone, Copy, PartialEq, Eq, Structural)]
pub struct Vector {
    /// The x component
    pub x: Dot,
    /// The y component
    pub y: Dot,
}

/// A rectangle, from its top-left corner `min` to its bottom-right corner `max`
#[derive(Debug, Clone, Copy, PartialEq, Eq, Structural)]
pub struct Rect {
    /// The top-left corner
    pub min: Point,
    /// The bottom-right corner
    pub max: Point,
}

/// The distances inwards from each side of a rectangle
#[derive(Debug, Clone, Copy, PartialEq, Eq, Structural)]
pub struct OffsetRect {
    /// The offset from the top side
    pub top: Dot,
    /// The offset from the right side
    pub right: Dot,
    /// The offset from the bottom side
    pub bottom: Dot,
    /// The offset from the left side
    pub left: Dot,
}

impl Point {
    /// Create a new point
    pub fn new(x: Dot, y: Dot) -> (p: Self)
        ensures
            p == (Point { x, y }),
    {
        Point { x, y }
    }

    /// A point with both coordinates the same
    pub fn splat(v: Dot) -> (p: Self)
        ensures
            p == (Point { x: v, y: v }),
    {
        Point { x: v, y: v }
    }

    /// Whether both coordinates are at most `bound` subdivisions from the origin
    pub open spec fn within(self, bound: int) -> bool {
        within(self.x, bound) && within(self.y, bound)
    }
}

impl Vector {
    /// Create a new vector
    pub fn new(x: Dot, y: Dot) -> (v: Self)
        ensures
            v == (Vector { x, y }),
    {
        Vector { x, y }
    }

    /// A vector with both components the same
    pub fn splat(v: Dot) -> (r: Self)
        ensures
            r == (Vector { x: v, y: v }),
    {
        Vector { x: v, y: v }
    }

    /// A vector of two lengths in key units, in dots
    pub fn from_key_units(x: KeyUnit, y: KeyUnit) -> (v: Self)
        ensures
            span(v.x) == x.subdivision_count(),
            span(v.y) == y.subdivision_count(),
    {
        Vector { x: Dot::convert_from(x), y: Dot::convert_from(y) }
    }

    /// Whether both components are at most `bound` subdivisions long either way
    pub open spec fn within(self, bound: int) -> bool {
        within(self.x, bound) && within(self.y, bound)
    }
}

impl OffsetRect {
    /// Create a new offset rectangle
    pub fn new(top: Dot, right: Dot, bottom: Dot, left: Dot) -> (o: Self)
        ensures
            o == (OffsetRect { top, right, bottom, left }),
    {
        OffsetRect { top, right, bottom, left }
    }

    /// The same offset on every side
    pub fn splat(v: Dot) -> (o: Self)
        ensures
            o == (OffsetRect { top: v, right: v, bottom: v, left: v }),
    {
        OffsetRect { top: v, right: v, bottom: v, left: v }
    }

    /// Whether every offset is at most `bound` subdivisions long either way
    pub open spec fn within(self, bound: int) -> bool {
        within(self.top, bound) && within(self.right, bound) && within(self.bottom, bound)
            && within(self.left, bound)
    }
}

/// Whether two rectangles are close: each corner coordinate of one is close to that of the
/// other, measured in dots (see `close`).
pub open spec fn rect_close(a: Rect, b: Rect) -> bool {
    let unit = SUBDIVISIONS_PER_DOT as int;
    &&& close(span(a.min.x), span(b.min.x), unit)
    &&& close(span(a.min.y), span(b.min.y), unit)
    &&& close(span(a.max.x), span(b.max.x), unit)
    &&& close(span(a.max.y), span(b.max.y), unit)
}

impl Rect {
    /// Whether `other` is close to this rectangle (see `rect_close`).
    pub fn is_close(&self, other: &Rect) -> (r: bool)
        ensures
            r == rect_close(*self, *other),
    {
        self.min.x.is_close(&other.min.x) && self.min.y.is_close(&other.min.y) && self.max.x.is_close(
            &other.max.x,
        ) && self.max.y.is_close(&other.max.y)
    }

    /// Create a new rectangle from its corners
    pub fn new(min: Point, max: Point) -> (r: Self)
        ensures
            r == (Rect { min, max }),
    {
        Rect { min, max }
    }

    /// Whether both corners are at most `bound` subdivisions from the origin
    pub open spec fn within(self, bound: int) -> bool {
        self.min.within(bound) && self.max.within(bound)
    }

    /// The rectangle of the given size centred on `center`; where the size is an odd number of
    /// subdivisions, the centre is half a subdivision right of or below the middle.
    pub fn from_center_and_size(center: Point, size: Vector) -> (r: Self)
        requires
            center.within(0x1000_0000_0000_0000),
            size.within(0x1000_0000_0000_0000),
        ensures
            span(r.min.x) == span(center.x) - span(size.x) / 2,
            span(r.min.y) == span(center.y) - span(size.y) / 2,
            span(r.max.x) == span(r.min.x) + span(size.x),
            span(r.max.y) == span(r.min.y) + span(size.y),
    {
        let min = Point { x: center.x.minus(size.x.half()), y: center.y.minus(size.y.half()) };
        let max = Point { x: min.x.plus(size.x), y: min.y.plus(size.y) };
        Rect { min, max }
    }

    /// This rectangle moved by `v`
    pub fn translate(self, v: Vector) -> (r: Self)
        requires
            self.within(0x1000_0000_0000_0000),
            v.within(0x1000_0000_0000_0000),
        ensures
            span(r.min.x) == span(self.min.x) + span(v.x),
            span(r.min.y) == span(self.min.y) + span(v.y),
            span(r.max.x) == span(self.max.x) + span(v.x),
            span(r.max.y) == span(self.max.y) + span(v.y),
    {
        Rect {
            min: Point { x: self.min.x.plus(v.x), y: self.min.y.plus(v.y) },
            max: Point { x: self.max.x.plus(v.x), y: self.max.y.plus(v.y) },
        }
    }

    /// This rectangle with its corners moved by `dmin` and `dmax`
    pub fn grow(self, dmin: Vector, dmax: Vector) -> (r: Self)
        requires
            self.within(0x1000_0000_0000_0000),
            dmin.within(0x1000_0000_0000_0000),
            dmax.within(0x1000_0000_0000_0000),
        ensures
            span(r.min.x) == span(self.min.x) + span(dmin.x),
            span(r.min.y) == span(self.min.y) + span(dmin.y),
            span(r.max.x) == span(self.max.x) + span(dmax.x),
            span(r.max.y) == span(self.max.y) + span(dmax.y),
    {
        Rect {
            min: Point { x: self.min.x.plus(dmin.x), y: self.min.y.plus(dmin.y) },
            max: Point { x: self.max.x.plus(dmax.x), y: self.max.y.plus(dmax.y) },
        }
    }

    /// This rectangle with each side moved inwards by the given offsets
    pub fn inset(self, offsets: OffsetRect) -> (r: Self)
        requires
            self.within(0x1000_0000_0000_0000),
            offsets.within(0x1000_0000_0000_0000),
        ensures
            span(r.min.x) == span(self.min.x) + span(offsets.left),
            span(r.min.y) == span(self.min.y) + span(offsets.top),
            span(r.max.x) == span(self.max.x) - span(offsets.right),
            span(r.max.y) == span(self.max.y) - span(offsets.bottom),
    {
        Rect {
            min: Point { x: self.min.x.plus(offsets.left), y: self.min.y.plus(offsets.top) },
            max: Point { x: self.max.x.minus(offsets.right), y: self.max.y.minus(offsets.bottom) },
        }
    }

    /// The width of the rectangle
    pub fn width(self) -> (w: Dot)
        requires
            self.within(0x1000_0000_0000_0000),
        ensures
            span(w) == span(self.max.x) - span(self.min.x),
    {
        self.max.x.minus(self.min.x)
    }

    /// The height of the rectangle
    pub fn height(self) -> (h: Dot)
        requires
            self.within(0x1000_0000_0000_0000),
        ensures
            span(h) == span(self.max.y) - span(self.min.y),
    {
        self.max.y.minus(self.min.y)
    }
}

} // verus!
