//! Layout strategies: row, column, stack (overlay) and container.
//!
//! Each strategy is a pair of pure functions over a list of child sizes:
//! `size` computes the container's own extent bottom-up, and `position`
//! assigns each child a rectangle top-down once the container's rectangle is
//! known.  Margins, spacing and measured extents are lengths and must be
//! nonnegative and in range (`coord_ok`); a positioned rectangle's origin
//! may sit much further out (absolute coordinates accumulate down the
//! tree), which the looser bound on rectangles admits.  Under those
//! preconditions no computation here overflows.

use vstd::prelude::*;
use crate::geom::{coord_ok, Frac, FracPoint2, Point2, Rect, Sides2, Size2, COORD_LIMIT};

verus! {

/// Largest child count a layout accepts.
pub const MAX_CHILDREN: usize = 0x10000;

/// Cross-axis alignment of a row or column item.
#[derive(Debug, Clone, Copy, PartialEq, Eq, Structural, Hash)]
pub enum Align {
    /// Align to the top (row) or left (column) edge.
    Begin,
    /// Center within the container's cross extent.
    Middle,
    /// Align to the bottom (row) or right (column) edge.
    End,
    /// Stretch to the container's cross extent.
    Fill,
}

impl Default for Align {
    fn default() -> (r: Self)
        ensures
            r == Align::Begin,
    {
        Align::Begin
    }
}

/// Per-child settings of a row layout.
#[derive(Debug, Clone, Copy, PartialEq, Eq, Structural, Hash)]
pub struct RowItem {
    pub align: Align,
    pub margin: Sides2,
    /// Whether the child claims an equal share of leftover main-axis space.
    pub fill: bool,
}

impl Default for RowItem {
    fn default() -> (r: Self)
        ensures
            r == (RowItem {
                align: Align::Begin,
                margin: Sides2 { left: 0i64, right: 0i64, top: 0i64, bottom: 0i64 },
                fill: false,
            }),
    {
        RowItem {
            align: Align::Begin,
            margin: Sides2 { left: 0, right: 0, top: 0, bottom: 0 },
            fill: false,
        }
    }
}

/// Per-child settings of a column layout.
#[derive(Debug, Clone, Copy, PartialEq, Eq, Structural, Hash)]
pub struct ColumnItem {
    pub align: Align,
    pub margin: Sides2,
    /// Whether the child claims an equal share of leftover main-axis space.
    pub fill: bool,
}

impl Default for ColumnItem {
    fn default() -> (r: Self)
        ensures
            r == (ColumnItem {
                align: Align::Begin,
                margin: Sides2 { left: 0i64, right: 0i64, top: 0i64, bottom: 0i64 },
                fill: false,
            }),
    {
        ColumnItem {
            align: Align::Begin,
            margin: Sides2 { left: 0, right: 0, top: 0, bottom: 0 },
            fill: false,
        }
    }
}

/// Per-child settings of a stack layout: where the child sits and how it is
/// sized, all independent of its siblings.
#[derive(Debug, Clone, Copy, PartialEq, Eq, Structural, Hash)]
pub struct StackItem {
    /// Normalized anchor within the parent rectangle.
    pub xy: FracPoint2,
    /// Absolute pixel offset added to the position.
    pub xy_offset: Point2,
    /// Normalized anchor within the child's own box.
    pub xy_anchor: FracPoint2,
    /// Optional width as a fraction of the parent width.
    pub width: Option<Frac>,
    /// Optional height as a fraction of the parent height.
    pub height: Option<Frac>,
    /// Absolute pixel size delta.
    pub wh_offset: Option<Size2>,
}

impl Default for StackItem {
    fn default() -> (r: Self)
        ensures
            r == StackItem::spec_default(),
    {
        StackItem {
            xy: FracPoint2 { x: Frac { thousandths: 0 }, y: Frac { thousandths: 0 } },
            xy_offset: Point2 { x: 0, y: 0 },
            xy_anchor: FracPoint2 { x: Frac { thousandths: 0 }, y: Frac { thousandths: 0 } },
            width: None,
            height: None,
            wh_offset: None,
        }
    }
}

impl StackItem {
    pub open spec fn spec_default() -> StackItem {
        StackItem {
            xy: FracPoint2 { x: Frac { thousandths: 0 }, y: Frac { thousandths: 0 } },
            xy_offset: Point2 { x: 0i64, y: 0i64 },
            xy_anchor: FracPoint2 { x: Frac { thousandths: 0 }, y: Frac { thousandths: 0 } },
            width: None,
            height: None,
            wh_offset: None,
        }
    }

    /// Centered in the parent.
    pub fn center() -> (r: StackItem)
        ensures
            r == (StackItem {
                xy: FracPoint2 { x: Frac { thousandths: 500u32 }, y: Frac { thousandths: 500u32 } },
                xy_anchor: FracPoint2 {
                    x: Frac { thousandths: 500u32 },
                    y: Frac { thousandths: 500u32 },
                },
                ..StackItem::spec_default()
            }),
    {
        StackItem {
            xy: FracPoint2 { x: Frac { thousandths: 500 }, y: Frac { thousandths: 500 } },
            xy_anchor: FracPoint2 { x: Frac { thousandths: 500 }, y: Frac { thousandths: 500 } },
            ..Default::default()
        }
    }

    /// Anchored to the top-left corner.
    pub fn top_left() -> (r: StackItem)
        ensures
            r == StackItem::spec_default(),
    {
        Default::default()
    }

    /// Anchored to the middle of the top edge.
    pub fn top_center() -> (r: StackItem)
        ensures
            r == (StackItem {
                xy: FracPoint2 { x: Frac { thousandths: 500u32 }, y: Frac { thousandths: 0u32 } },
                xy_anchor: FracPoint2 {
                    x: Frac { thousandths: 500u32 },
                    y: Frac { thousandths: 0u32 },
                },
                ..StackItem::spec_default()
            }),
    {
        StackItem {
            xy: FracPoint2 { x: Frac { thousandths: 500 }, y: Frac { thousandths: 0 } },
            xy_anchor: FracPoint2 { x: Frac { thousandths: 500 }, y: Frac { thousandths: 0 } },
            ..Default::default()
        }
    }

    /// Anchored to the top-right corner.
    pub fn top_right() -> (r: StackItem)
        ensures
            r == (StackItem {
                xy: FracPoint2 { x: Frac { thousandths: 1000u32 }, y: Frac { thousandths: 0u32 } },
                xy_anchor: FracPoint2 {
                    x: Frac { thousandths: 1000u32 },
                    y: Frac { thousandths: 0u32 },
                },
                ..StackItem::spec_default()
            }),
    {
        StackItem {
            xy: FracPoint2 { x: Frac { thousandths: 1000 }, y: Frac { thousandths: 0 } },
            xy_anchor: FracPoint2 { x: Frac { thousandths: 1000 }, y: Frac { thousandths: 0 } },
            ..Default::default()
        }
    }

    /// Anchored to the middle of the right edge.
    pub fn right_center() -> (r: StackItem)
        ensures
            r == (StackItem {
                xy: FracPoint2 { x: Frac { thousandths: 1000u32 }, y: Frac { thousandths: 500u32 } },
                xy_anchor: FracPoint2 {
                    x: Frac { thousandths: 1000u32 },
                    y: Frac { thousandths: 500u32 },
                },
                ..StackItem::spec_default()
            }),
    {
        StackItem {
            xy: FracPoint2 { x: Frac { thousandths: 1000 }, y: Frac { thousandths: 500 } },
            xy_anchor: FracPoint2 { x: Frac { thousandths: 1000 }, y: Frac { thousandths: 500 } },
            ..Default::default()
        }
    }

    /// Anchored to the bottom-right corner.
    pub fn bottom_right() -> (r: StackItem)
        ensures
            r == (StackItem {
                xy: FracPoint2 {
                    x: Frac { thousandths: 1000u32 },
                    y: Frac { thousandths: 1000u32 },
                },
                xy_anchor: FracPoint2 {
                    x: Frac { thousandths: 1000u32 },
                    y: Frac { thousandths: 1000u32 },
                },
                ..StackItem::spec_default()
            }),
    {
        StackItem {
            xy: FracPoint2 { x: Frac { thousandths: 1000 }, y: Frac { thousandths: 1000 } },
            xy_anchor: FracPoint2 { x: Frac { thousandths: 1000 }, y: Frac { thousandths: 1000 } },
            ..Default::default()
        }
    }

    /// Anchored to the middle of the bottom edge.
    pub fn bottom_center() -> (r: StackItem)
        ensures
            r == (StackItem {
                xy: FracPoint2 { x: Frac { thousandths: 500u32 }, y: Frac { thousandths: 1000u32 } },
                xy_anchor: FracPoint2 {
                    x: Frac { thousandths: 500u32 },
                    y: Frac { thousandths: 1000u32 },
                },
                ..StackItem::spec_default()
            }),
    {
        StackItem {
            xy: FracPoint2 { x: Frac { thousandths: 500 }, y: Frac { thousandths: 1000 } },
            xy_anchor: FracPoint2 { x: Frac { thousandths: 500 }, y: Frac { thousandths: 1000 } },
            ..Default::default()
        }
    }

    /// Anchored to the bottom-left corner.
    pub fn bottom_left() -> (r: StackItem)
        ensures
            r == (StackItem {
                xy: FracPoint2 { x: Frac { thousandths: 0u32 }, y: Frac { thousandths: 1000u32 } },
                xy_anchor: FracPoint2 {
                    x: Frac { thousandths: 0u32 },
                    y: Frac { thousandths: 1000u32 },
                },
                ..StackItem::spec_default()
            }),
    {
        StackItem {
            xy: FracPoint2 { x: Frac { thousandths: 0 }, y: Frac { thousandths: 1000 } },
            xy_anchor: FracPoint2 { x: Frac { thousandths: 0 }, y: Frac { thousandths: 1000 } },
            ..Default::default()
        }
    }

    /// Anchored to the middle of the left edge.
    pub fn left_center() -> (r: StackItem)
        ensures
            r == (StackItem {
                xy: FracPoint2 { x: Frac { thousandths: 0u32 }, y: Frac { thousandths: 500u32 } },
                xy_anchor: FracPoint2 {
                    x: Frac { thousandths: 0u32 },
                    y: Frac { thousandths: 500u32 },
                },
                ..StackItem::spec_default()
            }),
    {
        StackItem {
            xy: FracPoint2 { x: Frac { thousandths: 0 }, y: Frac { thousandths: 500 } },
            xy_anchor: FracPoint2 { x: Frac { thousandths: 0 }, y: Frac { thousandths: 500 } },
            ..Default::default()
        }
    }

    /// Stretched over the whole parent.
    pub fn fill() -> (r: StackItem)
        ensures
            r == (StackItem {
                width: Some(Frac { thousandths: 1000u32 }),
                height: Some(Frac { thousandths: 1000u32 }),
                ..StackItem::spec_default()
            }),
    {
        StackItem {
            width: Some(Frac { thousandths: 1000 }),
            height: Some(Frac { thousandths: 1000 }),
            ..Default::default()
        }
    }
}

/// The row strategy: children side by side along the x axis.
#[derive(Debug, Clone, PartialEq)]
pub struct RowLayout {
    pub items: Vec<RowItem>,
    pub margin: Sides2,
    pub spacing: i64,
}

/// The column strategy: children stacked along the y axis.
#[derive(Debug, Clone, PartialEq)]
pub struct ColumnLayout {
    pub items: Vec<ColumnItem>,
    pub margin: Sides2,
    pub spacing: i64,
}

/// The stack (overlay) strategy: children placed independently over each
/// other, each by its own item descriptor.
#[derive(Debug, Clone, PartialEq)]
pub struct StackLayout {
    pub items: Vec<StackItem>,
    pub margin: Sides2,
    /// Optional explicit width, overriding the measured maximum.
    pub width: Option<i64>,
    /// Optional explicit height, overriding the measured maximum.
    pub height: Option<i64>,
}

/// The container strategy: at most one child, inset by a margin.
#[derive(Debug, Clone, Copy, PartialEq, Eq, Structural, Hash)]
pub struct ContainerLayout {
    pub margin: Sides2,
}

/// A sizing and positioning algorithm for the children of a layout node.
#[derive(Debug, Clone, PartialEq)]
pub enum LayoutStrategy {
    Row(RowLayout),
    Column(ColumnLayout),
    Stack(StackLayout),
    Container(ContainerLayout),
}

/// The mathematical value of a [`LayoutStrategy`].
pub enum StrategyV {
    Row { items: Seq<RowItem>, margin: Sides2, spacing: i64 },
    Column { items: Seq<ColumnItem>, margin: Sides2, spacing: i64 },
    Stack { items: Seq<StackItem>, margin: Sides2, width: Option<i64>, height: Option<i64> },
    Container { margin: Sides2 },
}

impl View for LayoutStrategy {
    type V = StrategyV;

    open spec fn view(&self) -> StrategyV {
        match self {
            LayoutStrategy::Row(l) => StrategyV::Row {
                items: l.items@,
                margin: l.margin,
                spacing: l.spacing,
            },
            LayoutStrategy::Column(l) => StrategyV::Column {
                items: l.items@,
                margin: l.margin,
                spacing: l.spacing,
            },
            LayoutStrategy::Stack(l) => StrategyV::Stack {
                items: l.items@,
                margin: l.margin,
                width: l.width,
                height: l.height,
            },
            LayoutStrategy::Container(l) => StrategyV::Container { margin: l.margin },
        }
    }
}

/// Nonnegative side offsets (margins are lengths).
pub open spec fn sides_nonneg(s: Sides2) -> bool {
    s.left >= 0 && s.right >= 0 && s.top >= 0 && s.bottom >= 0
}

/// A margin usable by layout: in range and nonnegative.
pub open spec fn margin_ok(s: Sides2) -> bool {
    s.wf() && sides_nonneg(s)
}

/// Child sizes usable by layout: in range and nonnegative.
pub open spec fn sizes_ok(sizes: Seq<Size2>) -> bool {
    forall|i: int| 0 <= i < sizes.len() ==> (#[trigger] sizes[i]).wf() && sizes[i].nonneg()
}

pub open spec fn row_items_ok(items: Seq<RowItem>) -> bool {
    forall|i: int| 0 <= i < items.len() ==> margin_ok((#[trigger] items[i]).margin)
}

pub open spec fn column_items_ok(items: Seq<ColumnItem>) -> bool {
    forall|i: int| 0 <= i < items.len() ==> margin_ok((#[trigger] items[i]).margin)
}

pub open spec fn stack_items_ok(items: Seq<StackItem>) -> bool {
    forall|i: int|
        0 <= i < items.len() ==> {
            let it = #[trigger] items[i];
            &&& it.xy.wf()
            &&& it.xy_anchor.wf()
            &&& it.xy_offset.wf()
            &&& (it.width matches Some(f) ==> f.wf())
            &&& (it.height matches Some(f) ==> f.wf())
            &&& (it.wh_offset matches Some(o) ==> o.wf())
        }
}

// ---------------------------------------------------------------------------
// Row arithmetic
// ---------------------------------------------------------------------------

/// Sum over the first `n` children of main-axis extent plus per-child margin.
pub open spec fn row_widths_sum(sizes: Seq<Size2>, items: Seq<RowItem>, n: int) -> int
    decreases n,
{
    if n <= 0 {
        0
    } else {
        row_widths_sum(sizes, items, n - 1) + sizes[n - 1].width
            + items[n - 1].margin.spec_horizontal()
    }
}

/// Maximum over the first `n` children of cross-axis extent plus margin.
pub open spec fn row_heights_max(sizes: Seq<Size2>, items: Seq<RowItem>, n: int) -> int
    decreases n,
{
    if n <= 0 {
        0
    } else {
        let h = sizes[n - 1].height + items[n - 1].margin.spec_vertical();
        let rest = row_heights_max(sizes, items, n - 1);
        if h > rest {
            h
        } else {
            rest
        }
    }
}

/// Total spacing of `n` children: one gap fewer than children.
pub open spec fn spacing_total(spacing: int, n: int) -> int {
    if n > 0 {
        spacing * (n - 1)
    } else {
        0
    }
}

/// The row's own width: children plus gaps plus container margin.
pub open spec fn row_width_spec(
    sizes: Seq<Size2>,
    items: Seq<RowItem>,
    margin: Sides2,
    spacing: int,
) -> int {
    margin.spec_horizontal() + spacing_total(spacing, sizes.len() as int) + row_widths_sum(
        sizes,
        items,
        sizes.len() as int,
    )
}

/// The row's own height: tallest child plus container margin.
pub open spec fn row_height_spec(sizes: Seq<Size2>, items: Seq<RowItem>, margin: Sides2) -> int {
    margin.spec_vertical() + row_heights_max(sizes, items, sizes.len() as int)
}

/// Main-axis extent of the first `n` children that do not fill.
pub open spec fn row_fixed_sum(sizes: Seq<Size2>, items: Seq<RowItem>, n: int) -> int
    decreases n,
{
    if n <= 0 {
        0
    } else {
        row_fixed_sum(sizes, items, n - 1) + if items[n - 1].fill {
            0
        } else {
            sizes[n - 1].width + items[n - 1].margin.spec_horizontal()
        }
    }
}

/// How many of the first `n` children fill.
pub open spec fn row_fill_count(items: Seq<RowItem>, n: int) -> int
    decreases n,
{
    if n <= 0 {
        0
    } else {
        row_fill_count(items, n - 1) + if items[n - 1].fill {
            1int
        } else {
            0int
        }
    }
}

/// The equal share of leftover main-axis space each filling child claims.
/// Zero when no child fills or nothing is left over.
pub open spec fn row_fill_share(
    sizes: Seq<Size2>,
    items: Seq<RowItem>,
    spacing: int,
    inner_width: int,
) -> int {
    let filled = spacing_total(spacing, sizes.len() as int) + row_fixed_sum(
        sizes,
        items,
        sizes.len() as int,
    );
    let cnt = row_fill_count(items, sizes.len() as int);
    if cnt > 0 && inner_width - filled >= 0 {
        (inner_width - filled) / cnt
    } else {
        0
    }
}

/// The width a child takes on the main axis: its measured width, or the fill
/// share when it fills.
pub open spec fn row_child_width(
    sizes: Seq<Size2>,
    items: Seq<RowItem>,
    share: int,
    i: int,
) -> int {
    if items[i].fill {
        share
    } else {
        sizes[i].width as int
    }
}

/// Main-axis offset consumed by the first `n` children: margins, widths and
/// gaps.
pub open spec fn row_x_offset(
    sizes: Seq<Size2>,
    items: Seq<RowItem>,
    spacing: int,
    share: int,
    n: int,
) -> int
    decreases n,
{
    if n <= 0 {
        0
    } else {
        row_x_offset(sizes, items, spacing, share, n - 1) + items[n - 1].margin.spec_horizontal()
            + row_child_width(sizes, items, share, n - 1) + spacing
    }
}

/// The cross extent a child takes: stretched when it aligns `Fill`.
pub open spec fn row_child_height(inner: Rect, measured: int, align: Align) -> int {
    if align == Align::Fill {
        inner.size.height as int
    } else {
        measured
    }
}

/// The cross position of a child under its alignment.
pub open spec fn row_child_y(inner: Rect, measured: int, align: Align) -> int {
    match align {
        Align::Begin => inner.origin.y as int,
        Align::Middle => inner.origin.y + (inner.size.height as int) / 2 - measured / 2,
        Align::End => inner.origin.y + inner.size.height - measured,
        Align::Fill => inner.origin.y as int,
    }
}

/// The rectangles a row assigns to its children.
pub open spec fn row_rects_spec(
    sizes: Seq<Size2>,
    items: Seq<RowItem>,
    margin: Sides2,
    spacing: int,
    rect: Rect,
) -> Seq<Rect> {
    let inner = rect.spec_inner_rect(margin);
    let share = row_fill_share(sizes, items, spacing, inner.size.width as int);
    Seq::new(
        sizes.len(),
        |i: int|
            {
                let w = row_child_width(sizes, items, share, i);
                let h = row_child_height(inner, sizes[i].height as int, items[i].align);
                let x = inner.origin.x + row_x_offset(sizes, items, spacing, share, i)
                    + items[i].margin.left;
                let y = row_child_y(inner, sizes[i].height as int, items[i].align);
                Rect {
                    origin: Point2 { x: x as i64, y: y as i64 },
                    size: Size2 { width: w as i64, height: h as i64 },
                }
            },
    )
}

// ---------------------------------------------------------------------------
// Column arithmetic (the row transposed)
// ---------------------------------------------------------------------------

pub open spec fn column_heights_sum(sizes: Seq<Size2>, items: Seq<ColumnItem>, n: int) -> int
    decreases n,
{
    if n <= 0 {
        0
    } else {
        column_heights_sum(sizes, items, n - 1) + sizes[n - 1].height
            + items[n - 1].margin.spec_vertical()
    }
}

pub open spec fn column_widths_max(sizes: Seq<Size2>, items: Seq<ColumnItem>, n: int) -> int
    decreases n,
{
    if n <= 0 {
        0
    } else {
        let w = sizes[n - 1].width + items[n - 1].margin.spec_horizontal();
        let rest = column_widths_max(sizes, items, n - 1);
        if w > rest {
            w
        } else {
            rest
        }
    }
}

/// The column's own height: children plus gaps plus container margin.
pub open spec fn column_height_spec(
    sizes: Seq<Size2>,
    items: Seq<ColumnItem>,
    margin: Sides2,
    spacing: int,
) -> int {
    margin.spec_vertical() + spacing_total(spacing, sizes.len() as int) + column_heights_sum(
        sizes,
        items,
        sizes.len() as int,
    )
}

/// The column's own width: widest child plus container margin.
pub open spec fn column_width_spec(
    sizes: Seq<Size2>,
    items: Seq<ColumnItem>,
    margin: Sides2,
) -> int {
    margin.spec_horizontal() + column_widths_max(sizes, items, sizes.len() as int)
}

pub open spec fn column_fixed_sum(sizes: Seq<Size2>, items: Seq<ColumnItem>, n: int) -> int
    decreases n,
{
    if n <= 0 {
        0
    } else {
        column_fixed_sum(sizes, items, n - 1) + if items[n - 1].fill {
            0
        } else {
            sizes[n - 1].height + items[n - 1].margin.spec_vertical()
        }
    }
}

pub open spec fn column_fill_count(items: Seq<ColumnItem>, n: int) -> int
    decreases n,
{
    if n <= 0 {
        0
    } else {
        column_fill_count(items, n - 1) + if items[n - 1].fill {
            1int
        } else {
            0int
        }
    }
}

pub open spec fn column_fill_share(
    sizes: Seq<Size2>,
    items: Seq<ColumnItem>,
    spacing: int,
    inner_height: int,
) -> int {
    let filled = spacing_total(spacing, sizes.len() as int) + column_fixed_sum(
        sizes,
        items,
        sizes.len() as int,
    );
    let cnt = column_fill_count(items, sizes.len() as int);
    if cnt > 0 && inner_height - filled >= 0 {
        (inner_height - filled) / cnt
    } else {
        0
    }
}

pub open spec fn column_child_height(
    sizes: Seq<Size2>,
    items: Seq<ColumnItem>,
    share: int,
    i: int,
) -> int {
    if items[i].fill {
        share
    } else {
        sizes[i].height as int
    }
}

pub open spec fn column_y_offset(
    sizes: Seq<Size2>,
    items: Seq<ColumnItem>,
    spacing: int,
    share: int,
    n: int,
) -> int
    decreases n,
{
    if n <= 0 {
        0
    } else {
        column_y_offset(sizes, items, spacing, share, n - 1) + items[n - 1].margin.spec_vertical()
            + column_child_height(sizes, items, share, n - 1) + spacing
    }
}

pub open spec fn column_child_width(inner: Rect, measured: int, align: Align) -> int {
    if align == Align::Fill {
        inner.size.width as int
    } else {
        measured
    }
}

pub open spec fn column_child_x(inner: Rect, measured: int, align: Align) -> int {
    match align {
        Align::Begin => inner.origin.x as int,
        Align::Middle => inner.origin.x + (inner.size.width as int) / 2 - measured / 2,
        Align::End => inner.origin.x + inner.size.width - measured,
        Align::Fill => inner.origin.x as int,
    }
}

/// The rectangles a column assigns to its children.
pub open spec fn column_rects_spec(
    sizes: Seq<Size2>,
    items: Seq<ColumnItem>,
    margin: Sides2,
    spacing: int,
    rect: Rect,
) -> Seq<Rect> {
    let inner = rect.spec_inner_rect(margin);
    let share = column_fill_share(sizes, items, spacing, inner.size.height as int);
    Seq::new(
        sizes.len(),
        |i: int|
            {
                let h = column_child_height(sizes, items, share, i);
                let w = column_child_width(inner, sizes[i].width as int, items[i].align);
                let y = inner.origin.y + column_y_offset(sizes, items, spacing, share, i)
                    + items[i].margin.top;
                let x = column_child_x(inner, sizes[i].width as int, items[i].align);
                Rect {
                    origin: Point2 { x: x as i64, y: y as i64 },
                    size: Size2 { width: w as i64, height: h as i64 },
                }
            },
    )
}

// ---------------------------------------------------------------------------
// Stack arithmetic
// ---------------------------------------------------------------------------

pub open spec fn stack_max_width(sizes: Seq<Size2>, n: int) -> int
    decreases n,
{
    if n <= 0 {
        0
    } else {
        let w = sizes[n - 1].width as int;
        let rest = stack_max_width(sizes, n - 1);
        if w > rest {
            w
        } else {
            rest
        }
    }
}

pub open spec fn stack_max_height(sizes: Seq<Size2>, n: int) -> int
    decreases n,
{
    if n <= 0 {
        0
    } else {
        let h = sizes[n - 1].height as int;
        let rest = stack_max_height(sizes, n - 1);
        if h > rest {
            h
        } else {
            rest
        }
    }
}

/// The stack's own width: the measured maximum, or the explicit override,
/// plus the container margin.
pub open spec fn stack_width_spec(
    sizes: Seq<Size2>,
    margin: Sides2,
    width: Option<i64>,
) -> int {
    (match width {
        Some(w) => w as int,
        None => stack_max_width(sizes, sizes.len() as int),
    }) + margin.spec_horizontal()
}

pub open spec fn stack_height_spec(
    sizes: Seq<Size2>,
    margin: Sides2,
    height: Option<i64>,
) -> int {
    (match height {
        Some(h) => h as int,
        None => stack_max_height(sizes, sizes.len() as int),
    }) + margin.spec_vertical()
}

/// The width a stack child takes: the optional parent fraction, else its
/// measured width, plus the optional pixel delta.
pub open spec fn stack_child_width(inner: Rect, item: StackItem, measured: int) -> int {
    (match item.width {
        Some(f) => f.spec_scale(inner.size.width as int),
        None => measured,
    }) + (match item.wh_offset {
        Some(o) => o.width as int,
        None => 0,
    })
}

pub open spec fn stack_child_height(inner: Rect, item: StackItem, measured: int) -> int {
    (match item.height {
        Some(f) => f.spec_scale(inner.size.height as int),
        None => measured,
    }) + (match item.wh_offset {
        Some(o) => o.height as int,
        None => 0,
    })
}

/// Where a stack child's left edge lands: the parent anchor, plus the pixel
/// offset, minus the child-box anchor.
pub open spec fn stack_child_x(inner: Rect, item: StackItem, w: int) -> int {
    inner.origin.x + item.xy.x.spec_scale(inner.size.width as int) + item.xy_offset.x
        - item.xy_anchor.x.spec_scale(w)
}

pub open spec fn stack_child_y(inner: Rect, item: StackItem, h: int) -> int {
    inner.origin.y + item.xy.y.spec_scale(inner.size.height as int) + item.xy_offset.y
        - item.xy_anchor.y.spec_scale(h)
}

/// The rectangles a stack assigns to its children.
pub open spec fn stack_rects_spec(
    sizes: Seq<Size2>,
    items: Seq<StackItem>,
    margin: Sides2,
    rect: Rect,
) -> Seq<Rect> {
    let inner = rect.spec_inner_rect(margin);
    Seq::new(
        sizes.len(),
        |i: int|
            {
                let w = stack_child_width(inner, items[i], sizes[i].width as int);
                let h = stack_child_height(inner, items[i], sizes[i].height as int);
                let x = stack_child_x(inner, items[i], w);
                let y = stack_child_y(inner, items[i], h);
                Rect {
                    origin: Point2 { x: x as i64, y: y as i64 },
                    size: Size2 { width: w as i64, height: h as i64 },
                }
            },
    )
}

// ---------------------------------------------------------------------------
// Container arithmetic
// ---------------------------------------------------------------------------

pub open spec fn container_width_spec(sizes: Seq<Size2>, margin: Sides2) -> int {
    (if sizes.len() > 0 {
        sizes[0].width as int
    } else {
        0
    }) + margin.spec_horizontal()
}

pub open spec fn container_height_spec(sizes: Seq<Size2>, margin: Sides2) -> int {
    (if sizes.len() > 0 {
        sizes[0].height as int
    } else {
        0
    }) + margin.spec_vertical()
}

pub open spec fn container_rects_spec(sizes: Seq<Size2>, margin: Sides2, rect: Rect) -> Seq<
    Rect,
> {
    if sizes.len() > 0 {
        seq![rect.spec_inner_rect(margin)]
    } else {
        Seq::empty()
    }
}

// ---------------------------------------------------------------------------
// The strategy interface
// ---------------------------------------------------------------------------

/// What a strategy demands of its inputs before it can size children:
/// matching item and size lists of bounded length, in-range nonnegative
/// sizes, margins and spacing.
pub open spec fn size_req(s: StrategyV, sizes: Seq<Size2>) -> bool {
    match s {
        StrategyV::Row { items, margin, spacing } => {
            &&& items.len() == sizes.len()
            &&& sizes.len() <= MAX_CHILDREN
            &&& margin_ok(margin)
            &&& 0 <= spacing <= COORD_LIMIT
            &&& sizes_ok(sizes)
            &&& row_items_ok(items)
        },
        StrategyV::Column { items, margin, spacing } => {
            &&& items.len() == sizes.len()
            &&& sizes.len() <= MAX_CHILDREN
            &&& margin_ok(margin)
            &&& 0 <= spacing <= COORD_LIMIT
            &&& sizes_ok(sizes)
            &&& column_items_ok(items)
        },
        StrategyV::Stack { items, margin, width, height } => {
            &&& items.len() == sizes.len()
            &&& sizes.len() <= MAX_CHILDREN
            &&& margin_ok(margin)
            &&& sizes_ok(sizes)
            &&& stack_items_ok(items)
            &&& (width matches Some(w) ==> 0 <= w <= COORD_LIMIT)
            &&& (height matches Some(h) ==> 0 <= h <= COORD_LIMIT)
        },
        StrategyV::Container { margin } => {
            &&& sizes.len() <= 1
            &&& margin_ok(margin)
            &&& sizes_ok(sizes)
        },
    }
}

/// The size a strategy computes for its own container.
pub open spec fn spec_size(s: StrategyV, sizes: Seq<Size2>) -> Size2 {
    match s {
        StrategyV::Row { items, margin, spacing } => Size2 {
            width: row_width_spec(sizes, items, margin, spacing as int) as i64,
            height: row_height_spec(sizes, items, margin) as i64,
        },
        StrategyV::Column { items, margin, spacing } => Size2 {
            width: column_width_spec(sizes, items, margin) as i64,
            height: column_height_spec(sizes, items, margin, spacing as int) as i64,
        },
        StrategyV::Stack { items, margin, width, height } => Size2 {
            width: stack_width_spec(sizes, margin, width) as i64,
            height: stack_height_spec(sizes, margin, height) as i64,
        },
        StrategyV::Container { margin } => Size2 {
            width: container_width_spec(sizes, margin) as i64,
            height: container_height_spec(sizes, margin) as i64,
        },
    }
}

/// What a strategy additionally demands before it can position children: a
/// rectangle with a bounded (possibly far-from-origin) position, extents in
/// strict range, a nonnegative inner area after the margin, and for a
/// stack, computed child sizes that are themselves nonnegative lengths.
pub open spec fn position_req(s: StrategyV, rect: Rect, sizes: Seq<Size2>) -> bool {
    &&& size_req(s, sizes)
    &&& rect.wf_loose()
    &&& coord_ok(rect.size.width as int)
    &&& coord_ok(rect.size.height as int)
    &&& (match s {
        StrategyV::Row { items, margin, spacing } => {
            let inner = rect.spec_inner_rect(margin);
            inner.size.width >= 0 && inner.size.height >= 0
        },
        StrategyV::Column { items, margin, spacing } => {
            let inner = rect.spec_inner_rect(margin);
            inner.size.width >= 0 && inner.size.height >= 0
        },
        StrategyV::Stack { items, margin, width, height } => {
            let inner = rect.spec_inner_rect(margin);
            &&& inner.size.width >= 0
            &&& inner.size.height >= 0
            &&& forall|i: int|
                0 <= i < sizes.len() ==> {
                    &&& 0 <= stack_child_width(inner, #[trigger] items[i], sizes[i].width as int)
                    &&& 0 <= stack_child_height(inner, items[i], sizes[i].height as int)
                }
        },
        StrategyV::Container { margin } => true,
    })
}

/// Sum of the widths of the first `n` sizes, with no margins.
pub open spec fn widths_sum(sizes: Seq<Size2>, n: int) -> int
    decreases n,
{
    if n <= 0 {
        0
    } else {
        widths_sum(sizes, n - 1) + sizes[n - 1].width
    }
}

proof fn lemma_row_widths_sum_zero_margin(sizes: Seq<Size2>, items: Seq<RowItem>, n: int)
    requires
        n <= items.len(),
        n <= sizes.len(),
        forall|i: int|
            0 <= i < items.len() ==> (#[trigger] items[i]).margin == (Sides2 {
                left: 0i64,
                right: 0i64,
                top: 0i64,
                bottom: 0i64,
            }),
    ensures
        row_widths_sum(sizes, items, n) == widths_sum(sizes, n),
    decreases n,
{
    if n > 0 {
        lemma_row_widths_sum_zero_margin(sizes, items, n - 1);
    }
}

/// Layout round-trip: a row of `N` children with zero margins is exactly as
/// wide as the sum of its children's widths plus `spacing * (N - 1)`.
pub proof fn lemma_row_width_round_trip(sizes: Seq<Size2>, items: Seq<RowItem>, spacing: int)
    requires
        items.len() == sizes.len(),
        forall|i: int|
            0 <= i < items.len() ==> (#[trigger] items[i]).margin == (Sides2 {
                left: 0i64,
                right: 0i64,
                top: 0i64,
                bottom: 0i64,
            }),
    ensures
        row_width_spec(
            sizes,
            items,
            Sides2 { left: 0i64, right: 0i64, top: 0i64, bottom: 0i64 },
            spacing,
        ) == widths_sum(sizes, sizes.len() as int) + if sizes.len() > 0 {
            spacing * (sizes.len() - 1)
        } else {
            0
        },
{
    lemma_row_widths_sum_zero_margin(sizes, items, sizes.len() as int);
}

/// Division by a positive count never grows a nonnegative dividend.
proof fn lemma_div_le(a: int, b: int)
    requires
        0 <= a,
        1 <= b,
    ensures
        0 <= a / b <= a,
{
    assert(0 <= a / b <= a) by (nonlinear_arith)
        requires
            0 <= a,
            1 <= b,
    ;
}

fn copy_row_items(v: &Vec<RowItem>) -> (out: Vec<RowItem>)
    ensures
        out@ == v@,
{
    let mut out: Vec<RowItem> = Vec::new();
    let mut i: usize = 0;
    while i < v.len()
        invariant
            i <= v@.len(),
            out@ == v@.subrange(0, i as int),
        decreases v@.len() - i,
    {
        out.push(v[i]);
        assert(out@ == v@.subrange(0, i + 1 as int));
        i = i + 1;
    }
    assert(out@ == v@);
    out
}

fn copy_column_items(v: &Vec<ColumnItem>) -> (out: Vec<ColumnItem>)
    ensures
        out@ == v@,
{
    let mut out: Vec<ColumnItem> = Vec::new();
    let mut i: usize = 0;
    while i < v.len()
        invariant
            i <= v@.len(),
            out@ == v@.subrange(0, i as int),
        decreases v@.len() - i,
    {
        out.push(v[i]);
        assert(out@ == v@.subrange(0, i + 1 as int));
        i = i + 1;
    }
    assert(out@ == v@);
    out
}

fn copy_stack_items(v: &Vec<StackItem>) -> (out: Vec<StackItem>)
    ensures
        out@ == v@,
{
    let mut out: Vec<StackItem> = Vec::new();
    let mut i: usize = 0;
    while i < v.len()
        invariant
            i <= v@.len(),
            out@ == v@.subrange(0, i as int),
        decreases v@.len() - i,
    {
        out.push(v[i]);
        assert(out@ == v@.subrange(0, i + 1 as int));
        i = i + 1;
    }
    assert(out@ == v@);
    out
}

impl LayoutStrategy {
    /// Deep copy; the result has the same mathematical value.
    pub fn duplicate(&self) -> (r: LayoutStrategy)
        ensures
            r@ == self@,
    {
        match self {
            LayoutStrategy::Row(l) => LayoutStrategy::Row(
                RowLayout { items: copy_row_items(&l.items), margin: l.margin, spacing: l.spacing },
            ),
            LayoutStrategy::Column(l) => LayoutStrategy::Column(
                ColumnLayout {
                    items: copy_column_items(&l.items),
                    margin: l.margin,
                    spacing: l.spacing,
                },
            ),
            LayoutStrategy::Stack(l) => LayoutStrategy::Stack(
                StackLayout {
                    items: copy_stack_items(&l.items),
                    margin: l.margin,
                    width: l.width,
                    height: l.height,
                },
            ),
            LayoutStrategy::Container(l) => LayoutStrategy::Container(ContainerLayout {
                margin: l.margin,
            }),
        }
    }
}

impl LayoutStrategy {
    /// Computes the container's own size from its children's sizes,
    /// bottom-up.
    pub fn size(&self, sizes: &Vec<Size2>) -> (r: Size2)
        requires
            size_req(self@, sizes@),
        ensures
            r == spec_size(self@, sizes@),
    {
        match self {
            LayoutStrategy::Row(l) => {
                let n = sizes.len();
                let sp_total: i64 = if n > 0 {
                    assert(0 <= (l.spacing as int) * ((n - 1) as int) <= (COORD_LIMIT as int) * (
                    MAX_CHILDREN as int)) by (nonlinear_arith)
                        requires
                            0 <= l.spacing <= COORD_LIMIT,
                            0 <= (n - 1) as int <= MAX_CHILDREN as int,
                    ;
                    l.spacing * ((n - 1) as i64)
                } else {
                    0
                };
                let mut wsum: i64 = 0;
                let mut hmax: i64 = 0;
                let mut i: usize = 0;
                while i < n
                    invariant
                        i <= n,
                        n == sizes@.len(),
                        n == l.items@.len(),
                        n <= MAX_CHILDREN,
                        sizes_ok(sizes@),
                        row_items_ok(l.items@),
                        wsum as int == row_widths_sum(sizes@, l.items@, i as int),
                        0 <= wsum as int <= (i as int) * 0x1_0000_0000,
                        hmax as int == row_heights_max(sizes@, l.items@, i as int),
                        0 <= hmax as int <= 3 * COORD_LIMIT as int,
                    decreases n - i,
                {
                    assert(sizes@[i as int].wf() && sizes@[i as int].nonneg());
                    assert(margin_ok(l.items@[i as int].margin));
                    let w = sizes[i].width + l.items[i].margin.horizontal();
                    let h = sizes[i].height + l.items[i].margin.vertical();
                    wsum = wsum + w;
                    if h > hmax {
                        hmax = h;
                    }
                    i = i + 1;
                }
                Size2 {
                    width: l.margin.horizontal() + sp_total + wsum,
                    height: l.margin.vertical() + hmax,
                }
            },
            LayoutStrategy::Column(l) => {
                let n = sizes.len();
                let sp_total: i64 = if n > 0 {
                    assert(0 <= (l.spacing as int) * ((n - 1) as int) <= (COORD_LIMIT as int) * (
                    MAX_CHILDREN as int)) by (nonlinear_arith)
                        requires
                            0 <= l.spacing <= COORD_LIMIT,
                            0 <= (n - 1) as int <= MAX_CHILDREN as int,
                    ;
                    l.spacing * ((n - 1) as i64)
                } else {
                    0
                };
                let mut hsum: i64 = 0;
                let mut wmax: i64 = 0;
                let mut i: usize = 0;
                while i < n
                    invariant
                        i <= n,
                        n == sizes@.len(),
                        n == l.items@.len(),
                        n <= MAX_CHILDREN,
                        sizes_ok(sizes@),
                        column_items_ok(l.items@),
                        hsum as int == column_heights_sum(sizes@, l.items@, i as int),
                        0 <= hsum as int <= (i as int) * 0x1_0000_0000,
                        wmax as int == column_widths_max(sizes@, l.items@, i as int),
                        0 <= wmax as int <= 3 * COORD_LIMIT as int,
                    decreases n - i,
                {
                    assert(sizes@[i as int].wf() && sizes@[i as int].nonneg());
                    assert(margin_ok(l.items@[i as int].margin));
                    let h = sizes[i].height + l.items[i].margin.vertical();
                    let w = sizes[i].width + l.items[i].margin.horizontal();
                    hsum = hsum + h;
                    if w > wmax {
                        wmax = w;
                    }
                    i = i + 1;
                }
                Size2 {
                    width: l.margin.horizontal() + wmax,
                    height: l.margin.vertical() + sp_total + hsum,
                }
            },
            LayoutStrategy::Stack(l) => {
                let n = sizes.len();
                let mut wmax: i64 = 0;
                let mut hmax: i64 = 0;
                let mut i: usize = 0;
                while i < n
                    invariant
                        i <= n,
                        n == sizes@.len(),
                        sizes_ok(sizes@),
                        wmax as int == stack_max_width(sizes@, i as int),
                        0 <= wmax <= COORD_LIMIT,
                        hmax as int == stack_max_height(sizes@, i as int),
                        0 <= hmax <= COORD_LIMIT,
                    decreases n - i,
                {
                    if sizes[i].width > wmax {
                        wmax = sizes[i].width;
                    }
                    if sizes[i].height > hmax {
                        hmax = sizes[i].height;
                    }
                    i = i + 1;
                }
                let w_base: i64 = match l.width {
                    Some(w) => w,
                    None => wmax,
                };
                let h_base: i64 = match l.height {
                    Some(h) => h,
                    None => hmax,
                };
                Size2 {
                    width: w_base + l.margin.horizontal(),
                    height: h_base + l.margin.vertical(),
                }
            },
            LayoutStrategy::Container(l) => {
                let base: Size2 = if sizes.len() > 0 {
                    sizes[0]
                } else {
                    Size2 { width: 0, height: 0 }
                };
                Size2 {
                    width: base.width + l.margin.horizontal(),
                    height: base.height + l.margin.vertical(),
                }
            },
        }
    }
}

/// The rectangles a strategy assigns to its children.
pub open spec fn spec_position(s: StrategyV, rect: Rect, sizes: Seq<Size2>) -> Seq<Rect> {
    match s {
        StrategyV::Row { items, margin, spacing } => row_rects_spec(
            sizes,
            items,
            margin,
            spacing as int,
            rect,
        ),
        StrategyV::Column { items, margin, spacing } => column_rects_spec(
            sizes,
            items,
            margin,
            spacing as int,
            rect,
        ),
        StrategyV::Stack { items, margin, width, height } => stack_rects_spec(
            sizes,
            items,
            margin,
            rect,
        ),
        StrategyV::Container { margin } => container_rects_spec(sizes, margin, rect),
    }
}

impl LayoutStrategy {
    /// Assigns each child its rectangle within `rect`, top-down.  `rect` is
    /// the container's own allocated rectangle, as computed via [`Self::size`]
    /// and positioned by the parent.
    pub fn position(&self, rect: Rect, sizes: &Vec<Size2>) -> (r: Vec<Rect>)
        requires
            position_req(self@, rect, sizes@),
        ensures
            r@ == spec_position(self@, rect, sizes@),
    {
        match self {
            LayoutStrategy::Row(l) => {
                let inner = rect.inner_rect(l.margin);
                let n = sizes.len();
                let mut fixed: i64 = 0;
                let mut cnt: usize = 0;
                let mut i: usize = 0;
                while i < n
                    invariant
                        i <= n,
                        n == sizes@.len(),
                        n == l.items@.len(),
                        n <= MAX_CHILDREN,
                        sizes_ok(sizes@),
                        row_items_ok(l.items@),
                        fixed as int == row_fixed_sum(sizes@, l.items@, i as int),
                        0 <= fixed as int <= (i as int) * 0x1_0000_0000,
                        cnt as int == row_fill_count(l.items@, i as int),
                        cnt <= i,
                    decreases n - i,
                {
                    assert(sizes@[i as int].wf() && sizes@[i as int].nonneg());
                    assert(margin_ok(l.items@[i as int].margin));
                    if l.items[i].fill {
                        cnt = cnt + 1;
                    } else {
                        fixed = fixed + sizes[i].width + l.items[i].margin.horizontal();
                    }
                    i = i + 1;
                }
                let sp_total: i64 = if n > 0 {
                    assert(0 <= (l.spacing as int) * ((n - 1) as int) <= (COORD_LIMIT as int) * (
                    MAX_CHILDREN as int)) by (nonlinear_arith)
                        requires
                            0 <= l.spacing <= COORD_LIMIT,
                            0 <= (n - 1) as int <= MAX_CHILDREN as int,
                    ;
                    l.spacing * ((n - 1) as i64)
                } else {
                    0
                };
                let filled: i64 = sp_total + fixed;
                let leftover: i64 = inner.size.width - filled;
                let share: i64 = if cnt > 0 && leftover >= 0 {
                    proof {
                        lemma_div_le(leftover as int, cnt as int);
                    }
                    ((leftover as u64) / (cnt as u64)) as i64
                } else {
                    0
                };
                let ghost gshare = row_fill_share(
                    sizes@,
                    l.items@,
                    l.spacing as int,
                    inner.size.width as int,
                );
                proof {
                    assert(share as int == gshare);
                    assert(0 <= share <= COORD_LIMIT);
                }
                let ghost spec_rects = row_rects_spec(
                    sizes@,
                    l.items@,
                    l.margin,
                    l.spacing as int,
                    rect,
                );
                let mut out: Vec<Rect> = Vec::new();
                let mut x: i64 = inner.origin.x;
                let mut i: usize = 0;
                while i < n
                    invariant
                        i <= n,
                        n == sizes@.len(),
                        n == l.items@.len(),
                        n <= MAX_CHILDREN,
                        sizes_ok(sizes@),
                        row_items_ok(l.items@),
                        rect.wf_loose(),
                        coord_ok(rect.size.width as int),
                        coord_ok(rect.size.height as int),
                        margin_ok(l.margin),
                        0 <= l.spacing <= COORD_LIMIT,
                        inner == rect.spec_inner_rect(l.margin),
                        0 <= inner.size.width,
                        0 <= inner.size.height,
                        0 <= share <= COORD_LIMIT,
                        share as int == row_fill_share(
                            sizes@,
                            l.items@,
                            l.spacing as int,
                            inner.size.width as int,
                        ),
                        spec_rects == row_rects_spec(
                            sizes@,
                            l.items@,
                            l.margin,
                            l.spacing as int,
                            rect,
                        ),
                        spec_rects.len() == n,
                        out@ == spec_rects.subrange(0, i as int),
                        x as int == inner.origin.x + row_x_offset(
                            sizes@,
                            l.items@,
                            l.spacing as int,
                            share as int,
                            i as int,
                        ),
                        0 <= row_x_offset(sizes@, l.items@, l.spacing as int, share as int, i as int)
                            <= (i as int) * 0x1_0000_0000,
                    decreases n - i,
                {
                    assert(sizes@[i as int].wf() && sizes@[i as int].nonneg());
                    assert(margin_ok(l.items@[i as int].margin));
                    let it = l.items[i];
                    let x0: i64 = x + it.margin.left;
                    let w: i64 = if it.fill {
                        share
                    } else {
                        sizes[i].width
                    };
                    let (h, y): (i64, i64) = match it.align {
                        Align::Begin => (sizes[i].height, inner.origin.y),
                        Align::Middle => {
                            let hh = sizes[i].height;
                            let half_inner: i64 = ((inner.size.height as u64) / 2) as i64;
                            let half_h: i64 = ((hh as u64) / 2) as i64;
                            (hh, inner.origin.y + half_inner - half_h)
                        },
                        Align::End => (
                            sizes[i].height,
                            inner.origin.y + inner.size.height - sizes[i].height,
                        ),
                        Align::Fill => (inner.size.height, inner.origin.y),
                    };
                    let rct = Rect { origin: Point2 { x: x0, y }, size: Size2 { width: w, height: h } };
                    proof {
                        assert(rect.spec_inner_rect(l.margin) == inner);
                        assert(rct == spec_rects[i as int]);
                    }
                    out.push(rct);
                    assert(out@ == spec_rects.subrange(0, i as int + 1));
                    x = x0 + w + it.margin.right + l.spacing;
                    i = i + 1;
                }
                assert(out@ == spec_rects);
                out
            },
            LayoutStrategy::Column(l) => {
                let inner = rect.inner_rect(l.margin);
                let n = sizes.len();
                let mut fixed: i64 = 0;
                let mut cnt: usize = 0;
                let mut i: usize = 0;
                while i < n
                    invariant
                        i <= n,
                        n == sizes@.len(),
                        n == l.items@.len(),
                        n <= MAX_CHILDREN,
                        sizes_ok(sizes@),
                        column_items_ok(l.items@),
                        fixed as int == column_fixed_sum(sizes@, l.items@, i as int),
                        0 <= fixed as int <= (i as int) * 0x1_0000_0000,
                        cnt as int == column_fill_count(l.items@, i as int),
                        cnt <= i,
                    decreases n - i,
                {
                    assert(sizes@[i as int].wf() && sizes@[i as int].nonneg());
                    assert(margin_ok(l.items@[i as int].margin));
                    if l.items[i].fill {
                        cnt = cnt + 1;
                    } else {
                        fixed = fixed + sizes[i].height + l.items[i].margin.vertical();
                    }
                    i = i + 1;
                }
                let sp_total: i64 = if n > 0 {
                    assert(0 <= (l.spacing as int) * ((n - 1) as int) <= (COORD_LIMIT as int) * (
                    MAX_CHILDREN as int)) by (nonlinear_arith)
                        requires
                            0 <= l.spacing <= COORD_LIMIT,
                            0 <= (n - 1) as int <= MAX_CHILDREN as int,
                    ;
                    l.spacing * ((n - 1) as i64)
                } else {
                    0
                };
                let filled: i64 = sp_total + fixed;
                let leftover: i64 = inner.size.height - filled;
                let share: i64 = if cnt > 0 && leftover >= 0 {
                    proof {
                        lemma_div_le(leftover as int, cnt as int);
                    }
                    ((leftover as u64) / (cnt as u64)) as i64
                } else {
                    0
                };
                let ghost gshare = column_fill_share(
                    sizes@,
                    l.items@,
                    l.spacing as int,
                    inner.size.height as int,
                );
                proof {
                    assert(share as int == gshare);
                    assert(0 <= share <= COORD_LIMIT);
                }
                let ghost spec_rects = column_rects_spec(
                    sizes@,
                    l.items@,
                    l.margin,
                    l.spacing as int,
                    rect,
                );
                let mut out: Vec<Rect> = Vec::new();
                let mut y: i64 = inner.origin.y;
                let mut i: usize = 0;
                while i < n
                    invariant
                        i <= n,
                        n == sizes@.len(),
                        n == l.items@.len(),
                        n <= MAX_CHILDREN,
                        sizes_ok(sizes@),
                        column_items_ok(l.items@),
                        rect.wf_loose(),
                        coord_ok(rect.size.width as int),
                        coord_ok(rect.size.height as int),
                        margin_ok(l.margin),
                        0 <= l.spacing <= COORD_LIMIT,
                        inner == rect.spec_inner_rect(l.margin),
                        0 <= inner.size.width,
                        0 <= inner.size.height,
                        0 <= share <= COORD_LIMIT,
                        share as int == column_fill_share(
                            sizes@,
                            l.items@,
                            l.spacing as int,
                            inner.size.height as int,
                        ),
                        spec_rects == column_rects_spec(
                            sizes@,
                            l.items@,
                            l.margin,
                            l.spacing as int,
                            rect,
                        ),
                        spec_rects.len() == n,
                        out@ == spec_rects.subrange(0, i as int),
                        y as int == inner.origin.y + column_y_offset(
                            sizes@,
                            l.items@,
                            l.spacing as int,
                            share as int,
                            i as int,
                        ),
                        0 <= column_y_offset(
                            sizes@,
                            l.items@,
                            l.spacing as int,
                            share as int,
                            i as int,
                        ) <= (i as int) * 0x1_0000_0000,
                    decreases n - i,
                {
                    assert(sizes@[i as int].wf() && sizes@[i as int].nonneg());
                    assert(margin_ok(l.items@[i as int].margin));
                    let it = l.items[i];
                    let y0: i64 = y + it.margin.top;
                    let h: i64 = if it.fill {
                        share
                    } else {
                        sizes[i].height
                    };
                    let (w, x): (i64, i64) = match it.align {
                        Align::Begin => (sizes[i].width, inner.origin.x),
                        Align::Middle => {
                            let ww = sizes[i].width;
                            let half_inner: i64 = ((inner.size.width as u64) / 2) as i64;
                            let half_w: i64 = ((ww as u64) / 2) as i64;
                            (ww, inner.origin.x + half_inner - half_w)
                        },
                        Align::End => (
                            sizes[i].width,
                            inner.origin.x + inner.size.width - sizes[i].width,
                        ),
                        Align::Fill => (inner.size.width, inner.origin.x),
                    };
                    let rct = Rect { origin: Point2 { x, y: y0 }, size: Size2 { width: w, height: h } };
                    proof {
                        assert(rect.spec_inner_rect(l.margin) == inner);
                        assert(rct == spec_rects[i as int]);
                    }
                    out.push(rct);
                    assert(out@ == spec_rects.subrange(0, i as int + 1));
                    y = y0 + h + it.margin.bottom + l.spacing;
                    i = i + 1;
                }
                assert(out@ == spec_rects);
                out
            },
            LayoutStrategy::Stack(l) => {
                let inner = rect.inner_rect(l.margin);
                let n = sizes.len();
                let ghost spec_rects = stack_rects_spec(sizes@, l.items@, l.margin, rect);
                let mut out: Vec<Rect> = Vec::new();
                let mut i: usize = 0;
                while i < n
                    invariant
                        i <= n,
                        n == sizes@.len(),
                        n == l.items@.len(),
                        sizes_ok(sizes@),
                        stack_items_ok(l.items@),
                        rect.wf_loose(),
                        coord_ok(rect.size.width as int),
                        coord_ok(rect.size.height as int),
                        margin_ok(l.margin),
                        inner == rect.spec_inner_rect(l.margin),
                        0 <= inner.size.width <= COORD_LIMIT,
                        0 <= inner.size.height <= COORD_LIMIT,
                        forall|j: int|
                            0 <= j < n ==> {
                                &&& 0 <= stack_child_width(
                                    inner,
                                    #[trigger] l.items@[j],
                                    sizes@[j].width as int,
                                )
                                &&& 0 <= stack_child_height(inner, l.items@[j], sizes@[j].height as int)
                            },
                        spec_rects == stack_rects_spec(sizes@, l.items@, l.margin, rect),
                        spec_rects.len() == n,
                        out@ == spec_rects.subrange(0, i as int),
                    decreases n - i,
                {
                    assert(sizes@[i as int].wf() && sizes@[i as int].nonneg());
                    let it = l.items[i];
                    let base_w: i64 = match it.width {
                        Some(f) => f.scale(inner.size.width),
                        None => sizes[i].width,
                    };
                    let w: i64 = base_w + (match it.wh_offset {
                        Some(o) => o.width,
                        None => 0,
                    });
                    let base_h: i64 = match it.height {
                        Some(f) => f.scale(inner.size.height),
                        None => sizes[i].height,
                    };
                    let h: i64 = base_h + (match it.wh_offset {
                        Some(o) => o.height,
                        None => 0,
                    });
                    proof {
                        assert(w as int == stack_child_width(inner, it, sizes@[i as int].width as int));
                        assert(h as int == stack_child_height(
                            inner,
                            it,
                            sizes@[i as int].height as int,
                        ));
                        assert(0 <= w && 0 <= h);
                        assert(w as int <= 2 * COORD_LIMIT as int);
                        assert(h as int <= 2 * COORD_LIMIT as int);
                    }
                    let x: i64 = inner.origin.x + it.xy.x.scale(inner.size.width) + it.xy_offset.x
                        - it.xy_anchor.x.scale(w);
                    let y: i64 = inner.origin.y + it.xy.y.scale(inner.size.height) + it.xy_offset.y
                        - it.xy_anchor.y.scale(h);
                    let rct = Rect { origin: Point2 { x, y }, size: Size2 { width: w, height: h } };
                    proof {
                        assert(rct == spec_rects[i as int]);
                    }
                    out.push(rct);
                    assert(out@ == spec_rects.subrange(0, i as int + 1));
                    i = i + 1;
                }
                assert(out@ == spec_rects);
                out
            },
            LayoutStrategy::Container(l) => {
                let mut out: Vec<Rect> = Vec::new();
                if sizes.len() > 0 {
                    out.push(rect.inner_rect(l.margin));
                    assert(out@ =~= container_rects_spec(sizes@, l.margin, rect));
                } else {
                    assert(out@ =~= container_rects_spec(sizes@, l.margin, rect));
                }
                out
            },
        }
    }
}

} // verus!
