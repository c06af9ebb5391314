//! Screen geometry in whole pixels: points, sizes, rectangles and the four
//! corners a rectangle can be anchored by.
use vstd::prelude::*;

verus! {

/// Largest magnitude a coordinate or extent may have. Sums and differences
/// of a few such values then stay well inside `i64`.
pub const COORD_LIMIT: i64 = 1_099_511_627_776;

/// A value usable as a pixel coordinate or extent.
pub open spec fn in_range(v: int) -> bool {
    -COORD_LIMIT <= v <= COORD_LIMIT
}

#[derive(Clone, Copy, Debug, PartialEq, Eq, Structural)]
pub struct Point {
    pub x: i64,
    pub y: i64,
}

#[derive(Clone, Copy, Debug, PartialEq, Eq, Structural)]
pub struct Size {
    pub width: i64,
    pub height: i64,
}

/// An axis-aligned rectangle: the origin is its top-left corner.
#[derive(Clone, Copy, Debug, PartialEq, Eq, Structural)]
pub struct Bounds {
    pub origin: Point,
    pub size: Size,
}

impl Point {
    pub open spec fn wf(&self) -> bool {
        in_range(self.x as int) && in_range(self.y as int)
    }
}

impl Size {
    pub open spec fn wf(&self) -> bool {
        0 <= self.width <= COORD_LIMIT && 0 <= self.height <= COORD_LIMIT
    }
}

pub fn point(x: i64, y: i64) -> (r: Point)
    ensures
        r.x == x,
        r.y == y,
{
    Point { x, y }
}

pub fn size(width: i64, height: i64) -> (r: Size)
    ensures
        r.width == width,
        r.height == height,
{
    Size { width, height }
}

impl Bounds {
    pub open spec fn wf(&self) -> bool {
        self.origin.wf() && self.size.wf()
    }

    pub open spec fn left(&self) -> int {
        self.origin.x as int
    }

    pub open spec fn top(&self) -> int {
        self.origin.y as int
    }

    pub open spec fn right(&self) -> int {
        self.origin.x + self.size.width
    }

    pub open spec fn bottom(&self) -> int {
        self.origin.y + self.size.height
    }

    /// `p` lies inside: the left and top edges belong to the rectangle, the
    /// right and bottom edges do not.
    pub open spec fn contains_spec(&self, p: Point) -> bool {
        self.left() <= p.x < self.right() && self.top() <= p.y < self.bottom()
    }

    /// `inner` lies wholly inside `self`, edges included.
    pub open spec fn encloses(&self, inner: Bounds) -> bool {
        self.left() <= inner.left() && inner.right() <= self.right() && self.top()
            <= inner.top() && inner.bottom() <= self.bottom()
    }

    pub fn new(origin: Point, size: Size) -> (r: Bounds)
        ensures
            r.origin == origin,
            r.size == size,
    {
        Bounds { origin, size }
    }

    pub fn contains(&self, p: &Point) -> (r: bool)
        requires
            self.wf(),
        ensures
            r == self.contains_spec(*p),
    {
        self.origin.x <= p.x && p.x < self.origin.x + self.size.width && self.origin.y <= p.y
            && p.y < self.origin.y + self.size.height
    }
}

/// A corner of a rectangle.
#[derive(Clone, Copy, Debug, PartialEq, Eq, Structural)]
pub enum AnchorCorner {
    TopLeft,
    TopRight,
    BottomLeft,
    BottomRight,
}

impl AnchorCorner {
    pub open spec fn is_left(self) -> bool {
        self is TopLeft || self is BottomLeft
    }

    pub open spec fn is_top(self) -> bool {
        self is TopLeft || self is TopRight
    }

    /// The point of `b` at this corner.
    pub open spec fn corner_spec(self, b: Bounds) -> Point {
        Point {
            x: if self.is_left() { b.origin.x } else { (b.origin.x + b.size.width) as i64 },
            y: if self.is_top() { b.origin.y } else { (b.origin.y + b.size.height) as i64 },
        }
    }

    pub fn corner(&self, b: &Bounds) -> (r: Point)
        requires
            b.wf(),
        ensures
            r == self.corner_spec(*b),
            r.x == if self.is_left() { b.left() } else { b.right() },
            r.y == if self.is_top() { b.top() } else { b.bottom() },
    {
        let x = match self {
            AnchorCorner::TopLeft | AnchorCorner::BottomLeft => b.origin.x,
            AnchorCorner::TopRight | AnchorCorner::BottomRight => b.origin.x + b.size.width,
        };
        let y = match self {
            AnchorCorner::TopLeft | AnchorCorner::TopRight => b.origin.y,
            AnchorCorner::BottomLeft | AnchorCorner::BottomRight => b.origin.y + b.size.height,
        };
        Point { x, y }
    }
}

} // verus!
