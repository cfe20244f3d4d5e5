//! Fill descriptions for painted nodes: solid colors, gradients, images and
//! blurs, plus the z-order bucket that orders siblings in the paint list.

use vstd::prelude::*;
use crate::geom::{Frac, FracPoint2, Point2};

verus! {

/// An RGBA color with 8-bit channels.
#[derive(Debug, Clone, Copy, PartialEq, Eq, Structural, Hash)]
pub struct Color {
    pub red: u8,
    pub green: u8,
    pub blue: u8,
    pub alpha: u8,
}

/// An opaque color with 8-bit channels.
pub fn rgb(red: u8, green: u8, blue: u8) -> (r: Color)
    ensures
        r == (Color { red, green, blue, alpha: 255u8 }),
{
    Color { red, green, blue, alpha: 255 }
}

/// A color with 8-bit channels and alpha.
pub fn rgba(red: u8, green: u8, blue: u8, alpha: u8) -> (r: Color)
    ensures
        r == (Color { red, green, blue, alpha }),
{
    Color { red, green, blue, alpha }
}

/// One stop of a gradient: a normalized position along the gradient axis and
/// the color there.
#[derive(Debug, Clone, Copy, PartialEq, Eq, Structural, Hash)]
pub struct GradientStop {
    pub position: Frac,
    pub color: Color,
}

/// A handle to a decoded image owned by the host application, together with
/// its pixel dimensions; the paint pass never reads the pixels.
#[derive(Debug, Clone, Copy, PartialEq, Eq, Structural, Hash)]
pub struct ImageHandle {
    pub id: u64,
    pub width: i64,
    pub height: i64,
}

/// How a node's geometry is filled.
#[derive(Debug, Clone, PartialEq)]
pub enum Paint {
    Solid(Color),
    /// A linear gradient between two points given as normalized positions
    /// within the painted rectangle.
    LinearGradient { stops: Vec<GradientStop>, begin: FracPoint2, end: FracPoint2 },
    /// A radial gradient around a center given as a normalized position
    /// within the painted rectangle, with a pixel radius.
    RadialGradient { stops: Vec<GradientStop>, center: FracPoint2, radius: i64 },
    Image(ImageHandle),
    /// A backdrop blur with a pixel radius, tinted by a color.
    Blur { radius: i64, tint: Color },
}

/// The mathematical value of a [`Paint`]: the same description with the
/// gradient stops as a sequence.
pub enum PaintV {
    Solid(Color),
    LinearGradient { stops: Seq<GradientStop>, begin: FracPoint2, end: FracPoint2 },
    RadialGradient { stops: Seq<GradientStop>, center: FracPoint2, radius: i64 },
    Image(ImageHandle),
    Blur { radius: i64, tint: Color },
}

impl View for Paint {
    type V = PaintV;

    open spec fn view(&self) -> PaintV {
        match self {
            Paint::Solid(c) => PaintV::Solid(*c),
            Paint::LinearGradient { stops, begin, end } => PaintV::LinearGradient {
                stops: stops@,
                begin: *begin,
                end: *end,
            },
            Paint::RadialGradient { stops, center, radius } => PaintV::RadialGradient {
                stops: stops@,
                center: *center,
                radius: *radius,
            },
            Paint::Image(h) => PaintV::Image(*h),
            Paint::Blur { radius, tint } => PaintV::Blur { radius: *radius, tint: *tint },
        }
    }
}

impl Paint {
    /// Deep copy; the result has the same mathematical value.
    pub fn duplicate(&self) -> (r: Paint)
        ensures
            r@ == self@,
    {
        match self {
            Paint::Solid(c) => Paint::Solid(*c),
            Paint::LinearGradient { stops, begin, end } => {
                let mut out: Vec<GradientStop> = Vec::new();
                let mut i: usize = 0;
                while i < stops.len()
                    invariant
                        i <= stops.len(),
                        out@ == stops@.subrange(0, i as int),
                    decreases stops.len() - i,
                {
                    out.push(stops[i]);
                    assert(out@ == stops@.subrange(0, i + 1 as int));
                    i = i + 1;
                }
                assert(out@ == stops@);
                Paint::LinearGradient { stops: out, begin: *begin, end: *end }
            },
            Paint::RadialGradient { stops, center, radius } => {
                let mut out: Vec<GradientStop> = Vec::new();
                let mut i: usize = 0;
                while i < stops.len()
                    invariant
                        i <= stops.len(),
                        out@ == stops@.subrange(0, i as int),
                    decreases stops.len() - i,
                {
                    out.push(stops[i]);
                    assert(out@ == stops@.subrange(0, i + 1 as int));
                    i = i + 1;
                }
                assert(out@ == stops@);
                Paint::RadialGradient { stops: out, center: *center, radius: *radius }
            },
            Paint::Image(h) => Paint::Image(*h),
            Paint::Blur { radius, tint } => Paint::Blur { radius: *radius, tint: *tint },
        }
    }
}

/// The relative paint-order bucket of a node among its siblings.  Within a
/// flatten pass, siblings in the same bucket keep their relative order, while
/// different buckets fully segregate.
#[derive(Debug, Clone, Copy, PartialEq, Eq, Structural, Hash)]
pub enum ZOrder {
    /// Painted below everything in the whole tree.
    Bottom,
    /// Painted at the parent's level, after the parent (the default).
    Above,
    /// Painted at the parent's level, before the parent.
    Below,
    /// Painted above everything in the whole tree.
    Top,
}

impl Default for ZOrder {
    fn default() -> (r: Self)
        ensures
            r == ZOrder::Above,
    {
        ZOrder::Above
    }
}

} // verus!
