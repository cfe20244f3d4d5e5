//! Integral 2-D geometry: points, sizes, rectangles, side offsets, and
//! normalized fractions.
//!
//! Coordinates are `i64` pixels.  Values within `[-COORD_LIMIT, COORD_LIMIT]`
//! are "in range" (`coord_ok`); the layout passes require their inputs to be
//! in range so that every sum they form fits comfortably in `i64`.

use vstd::prelude::*;

verus! {

/// Largest coordinate magnitude the layout passes accept as input.
pub const COORD_LIMIT: i64 = 0x4000_0000;

/// Whether a coordinate is small enough to take part in layout arithmetic.
pub open spec fn coord_ok(v: int) -> bool {
    -COORD_LIMIT <= v <= COORD_LIMIT
}

/// A position in absolute (root-relative) pixel coordinates.
#[derive(Debug, Clone, Copy, PartialEq, Eq, Structural, Hash)]
pub struct Point2 {
    pub x: i64,
    pub y: i64,
}

/// An extent in pixels.
#[derive(Debug, Clone, Copy, PartialEq, Eq, Structural, Hash)]
pub struct Size2 {
    pub width: i64,
    pub height: i64,
}

/// Per-side pixel offsets, used for margins.
#[derive(Debug, Clone, Copy, PartialEq, Eq, Structural, Hash)]
pub struct Sides2 {
    pub left: i64,
    pub right: i64,
    pub top: i64,
    pub bottom: i64,
}

/// An axis-aligned rectangle: origin (top-left corner) plus size.
#[derive(Debug, Clone, Copy, PartialEq, Eq, Structural, Hash)]
pub struct Rect {
    pub origin: Point2,
    pub size: Size2,
}

pub fn point2(x: i64, y: i64) -> (r: Point2)
    ensures
        r == (Point2 { x, y }),
{
    Point2 { x, y }
}

pub fn size2(width: i64, height: i64) -> (r: Size2)
    ensures
        r == (Size2 { width, height }),
{
    Size2 { width, height }
}

pub fn rect(x: i64, y: i64, width: i64, height: i64) -> (r: Rect)
    ensures
        r == (Rect { origin: Point2 { x, y }, size: Size2 { width, height } }),
{
    Rect { origin: Point2 { x, y }, size: Size2 { width, height } }
}

impl Point2 {
    pub open spec fn wf(self) -> bool {
        coord_ok(self.x as int) && coord_ok(self.y as int)
    }

    pub fn zero() -> (r: Point2)
        ensures
            r == (Point2 { x: 0i64, y: 0i64 }),
    {
        Point2 { x: 0, y: 0 }
    }
}

impl Size2 {
    pub open spec fn wf(self) -> bool {
        coord_ok(self.width as int) && coord_ok(self.height as int)
    }

    /// Whether both extents are nonnegative.
    pub open spec fn nonneg(self) -> bool {
        self.width >= 0 && self.height >= 0
    }

    pub fn zero() -> (r: Size2)
        ensures
            r == (Size2 { width: 0i64, height: 0i64 }),
    {
        Size2 { width: 0, height: 0 }
    }
}

impl Sides2 {
    pub open spec fn wf(self) -> bool {
        &&& coord_ok(self.left as int)
        &&& coord_ok(self.right as int)
        &&& coord_ok(self.top as int)
        &&& coord_ok(self.bottom as int)
    }

    pub open spec fn spec_horizontal(self) -> int {
        self.left + self.right
    }

    pub open spec fn spec_vertical(self) -> int {
        self.top + self.bottom
    }

    pub fn new(top: i64, right: i64, bottom: i64, left: i64) -> (r: Sides2)
        ensures
            r == (Sides2 { left, right, top, bottom }),
    {
        Sides2 { left, right, top, bottom }
    }

    pub fn new_all_same(v: i64) -> (r: Sides2)
        ensures
            r == (Sides2 { left: v, right: v, top: v, bottom: v }),
    {
        Sides2 { left: v, right: v, top: v, bottom: v }
    }

    pub fn zero() -> (r: Sides2)
        ensures
            r == (Sides2 { left: 0i64, right: 0i64, top: 0i64, bottom: 0i64 }),
    {
        Sides2 { left: 0, right: 0, top: 0, bottom: 0 }
    }

    /// Sum of the left and right offsets.
    pub fn horizontal(&self) -> (r: i64)
        requires
            self.wf(),
        ensures
            r as int == self.spec_horizontal(),
    {
        self.left + self.right
    }

    /// Sum of the top and bottom offsets.
    pub fn vertical(&self) -> (r: i64)
        requires
            self.wf(),
        ensures
            r as int == self.spec_vertical(),
    {
        self.top + self.bottom
    }
}

impl Rect {
    pub open spec fn wf(self) -> bool {
        self.origin.wf() && self.size.wf()
    }

    /// A looser bound that covers rectangles the layout pass positions:
    /// absolute coordinates accumulate, so they may far exceed the input
    /// range while staying comfortably below overflow.
    pub open spec fn wf_loose(self) -> bool {
        &&& -0x40_0000_0000_0000 <= self.origin.x <= 0x40_0000_0000_0000
        &&& -0x40_0000_0000_0000 <= self.origin.y <= 0x40_0000_0000_0000
        &&& -0x40_0000_0000_0000 <= self.size.width <= 0x40_0000_0000_0000
        &&& -0x40_0000_0000_0000 <= self.size.height <= 0x40_0000_0000_0000
    }

    /// The widest bound: edge sums still cannot overflow.
    pub open spec fn wf_big(self) -> bool {
        &&& -0x1000_0000_0000_0000 <= self.origin.x <= 0x1000_0000_0000_0000
        &&& -0x1000_0000_0000_0000 <= self.origin.y <= 0x1000_0000_0000_0000
        &&& -0x1000_0000_0000_0000 <= self.size.width <= 0x1000_0000_0000_0000
        &&& -0x1000_0000_0000_0000 <= self.size.height <= 0x1000_0000_0000_0000
    }

    pub open spec fn spec_min_x(self) -> int {
        self.origin.x as int
    }

    pub open spec fn spec_min_y(self) -> int {
        self.origin.y as int
    }

    pub open spec fn spec_max_x(self) -> int {
        self.origin.x + self.size.width
    }

    pub open spec fn spec_max_y(self) -> int {
        self.origin.y + self.size.height
    }

    /// Whether two rectangles overlap in a region of positive area.
    pub open spec fn spec_intersects(self, other: Rect) -> bool {
        &&& self.spec_min_x() < other.spec_max_x()
        &&& other.spec_min_x() < self.spec_max_x()
        &&& self.spec_min_y() < other.spec_max_y()
        &&& other.spec_min_y() < self.spec_max_y()
    }

    /// Whether a point lies inside the rectangle (inclusive of the top-left
    /// edges, exclusive of the bottom-right ones).
    pub open spec fn spec_contains(self, p: Point2) -> bool {
        &&& self.spec_min_x() <= p.x < self.spec_max_x()
        &&& self.spec_min_y() <= p.y < self.spec_max_y()
    }

    /// The rectangle grown by `dx` horizontally and `dy` vertically on every
    /// side.
    pub open spec fn spec_inflate(self, dx: int, dy: int) -> Rect {
        Rect {
            origin: Point2 { x: (self.origin.x - dx) as i64, y: (self.origin.y - dy) as i64 },
            size: Size2 {
                width: (self.size.width + 2 * dx) as i64,
                height: (self.size.height + 2 * dy) as i64,
            },
        }
    }

    /// The rectangle inset by the given side offsets.
    pub open spec fn spec_inner_rect(self, sides: Sides2) -> Rect {
        Rect {
            origin: Point2 {
                x: (self.origin.x + sides.left) as i64,
                y: (self.origin.y + sides.top) as i64,
            },
            size: Size2 {
                width: (self.size.width - sides.spec_horizontal()) as i64,
                height: (self.size.height - sides.spec_vertical()) as i64,
            },
        }
    }

    pub fn new(origin: Point2, size: Size2) -> (r: Rect)
        ensures
            r == (Rect { origin, size }),
    {
        Rect { origin, size }
    }

    pub fn zero() -> (r: Rect)
        ensures
            r == (Rect {
                origin: Point2 { x: 0i64, y: 0i64 },
                size: Size2 { width: 0i64, height: 0i64 },
            }),
    {
        Rect { origin: Point2 { x: 0, y: 0 }, size: Size2 { width: 0, height: 0 } }
    }

    pub fn intersects(&self, other: &Rect) -> (r: bool)
        requires
            self.wf_big(),
            other.wf_big(),
        ensures
            r == self.spec_intersects(*other),
    {
        self.origin.x < other.origin.x + other.size.width
            && other.origin.x < self.origin.x + self.size.width
            && self.origin.y < other.origin.y + other.size.height
            && other.origin.y < self.origin.y + self.size.height
    }

    pub fn contains(&self, p: Point2) -> (r: bool)
        requires
            self.wf_big(),
            p.wf(),
        ensures
            r == self.spec_contains(p),
    {
        self.origin.x <= p.x && p.x < self.origin.x + self.size.width && self.origin.y <= p.y
            && p.y < self.origin.y + self.size.height
    }

    pub fn inflate(&self, dx: i64, dy: i64) -> (r: Rect)
        requires
            self.wf_loose(),
            coord_ok(dx as int),
            coord_ok(dy as int),
        ensures
            r == self.spec_inflate(dx as int, dy as int),
    {
        Rect {
            origin: Point2 { x: self.origin.x - dx, y: self.origin.y - dy },
            size: Size2 { width: self.size.width + 2 * dx, height: self.size.height + 2 * dy },
        }
    }

    pub fn inner_rect(&self, sides: Sides2) -> (r: Rect)
        requires
            self.wf_loose(),
            sides.wf(),
        ensures
            r == self.spec_inner_rect(sides),
    {
        Rect {
            origin: Point2 { x: self.origin.x + sides.left, y: self.origin.y + sides.top },
            size: Size2 {
                width: self.size.width - (sides.left + sides.right),
                height: self.size.height - (sides.top + sides.bottom),
            },
        }
    }
}

/// Denominator of [`Frac`] values: a `Frac` of `FRAC_ONE` thousandths is 1.
pub const FRAC_ONE: u32 = 1000;

/// A normalized factor in `[0, 1]`, held in thousandths.
///
/// Stack layout anchors and gradient stop positions use these in place of
/// floating-point fractions; scaling by a `Frac` divides exactly by 1000 and
/// rounds down.
#[derive(Debug, Clone, Copy, PartialEq, Eq, Structural, Hash)]
pub struct Frac {
    pub thousandths: u32,
}

impl Frac {
    pub open spec fn wf(self) -> bool {
        self.thousandths <= FRAC_ONE
    }

    /// The factor scaled onto a nonnegative value, rounded down.
    pub open spec fn spec_scale(self, v: int) -> int {
        (self.thousandths * v) / (FRAC_ONE as int)
    }

    pub fn new(thousandths: u32) -> (r: Frac)
        ensures
            r == (Frac { thousandths }),
    {
        Frac { thousandths }
    }

    /// The factor 0.
    pub fn zero() -> (r: Frac)
        ensures
            r == (Frac { thousandths: 0u32 }),
    {
        Frac { thousandths: 0 }
    }

    /// The factor 1/2.
    pub fn half() -> (r: Frac)
        ensures
            r == (Frac { thousandths: 500u32 }),
    {
        Frac { thousandths: 500 }
    }

    /// The factor 1.
    pub fn one() -> (r: Frac)
        ensures
            r == (Frac { thousandths: FRAC_ONE }),
    {
        Frac { thousandths: FRAC_ONE }
    }

    /// Scales a nonnegative pixel extent by this factor, rounding down.
    pub fn scale(&self, v: i64) -> (r: i64)
        requires
            self.wf(),
            0 <= v,
            v as int <= 4 * (COORD_LIMIT as int),
        ensures
            r as int == self.spec_scale(v as int),
            0 <= r <= v,
    {
        assert((self.thousandths as int) * (v as int) <= 1000 * 4 * (COORD_LIMIT as int))
            by (nonlinear_arith)
            requires
                self.thousandths <= 1000,
                0 <= v as int <= 4 * (COORD_LIMIT as int),
        ;
        let prod: u64 = (self.thousandths as u64) * (v as u64);
        let q: u64 = prod / (FRAC_ONE as u64);
        assert(q as int <= v as int) by {
            assert(prod as int <= 1000 * (v as int)) by (nonlinear_arith)
                requires
                    self.thousandths <= 1000,
                    0 <= v,
                    prod as int == (self.thousandths as int) * (v as int),
            ;
            assert(prod as int / 1000 <= (1000 * (v as int)) / 1000) by (nonlinear_arith)
                requires
                    0 <= prod as int <= 1000 * (v as int),
            ;
            assert((1000 * (v as int)) / 1000 == v as int) by (nonlinear_arith)
                requires
                    0 <= v,
            ;
        }
        q as i64
    }
}

/// A pair of normalized factors, used as a 2-D anchor.
#[derive(Debug, Clone, Copy, PartialEq, Eq, Structural, Hash)]
pub struct FracPoint2 {
    pub x: Frac,
    pub y: Frac,
}

impl FracPoint2 {
    pub open spec fn wf(self) -> bool {
        self.x.wf() && self.y.wf()
    }

    pub fn new(x: Frac, y: Frac) -> (r: FracPoint2)
        ensures
            r == (FracPoint2 { x, y }),
    {
        FracPoint2 { x, y }
    }

    pub fn zero() -> (r: FracPoint2)
        ensures
            r == (FracPoint2 { x: Frac { thousandths: 0u32 }, y: Frac { thousandths: 0u32 } }),
    {
        FracPoint2 { x: Frac { thousandths: 0 }, y: Frac { thousandths: 0 } }
    }
}

} // verus!
