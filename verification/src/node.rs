//! Scene nodes: the declarative tree an application builds each frame, and
//! its resolved mirror carrying bound fonts, shaped text and rectangles.
//!
//! Host closures (interaction callbacks, custom draw callbacks) are carried
//! as opaque [`CallbackId`] handles; the host owns the closures and invokes
//! whichever handles the library hands back.
//!
//! Corner radii are named clockwise from the top-left corner; background and
//! border rounding share the same convention.

use vstd::prelude::*;
use vstd::string::StringExecFns;
use crate::geom::{Point2, Rect, Size2};
use crate::identity::Identity;
use crate::layout::{LayoutStrategy, StrategyV};
use crate::paint::{Paint, PaintV, ZOrder};
use crate::text::{FontMetrics, ShapedBlob, ShapedGlyph};

verus! {

/// An opaque handle to a closure owned by the host application.
#[derive(Debug, Clone, Copy, PartialEq, Eq, Structural, Hash)]
pub struct CallbackId {
    pub token: u64,
}

impl CallbackId {
    pub fn new(token: u64) -> (r: CallbackId)
        ensures
            r == (CallbackId { token }),
    {
        CallbackId { token }
    }
}

/// Corner radii of a rounded rectangle, clockwise from the top-left corner.
#[derive(Debug, Clone, Copy, PartialEq, Eq, Structural, Hash)]
pub struct CornerRadii {
    pub top_left: i64,
    pub top_right: i64,
    pub bottom_right: i64,
    pub bottom_left: i64,
}

impl CornerRadii {
    pub fn uniform(radius: i64) -> (r: CornerRadii)
        ensures
            r == (CornerRadii {
                top_left: radius,
                top_right: radius,
                bottom_right: radius,
                bottom_left: radius,
            }),
    {
        CornerRadii {
            top_left: radius,
            top_right: radius,
            bottom_right: radius,
            bottom_left: radius,
        }
    }
}

/// The declarative description of the UI, built afresh each frame.
#[derive(Debug)]
pub enum Node {
    /// The absent node: resolves to nothing.
    Null,
    /// Routes interaction events over its subtree to a host callback.
    Interact {
        child: Box<Node>,
        callback: CallbackId,
        id: Identity,
        passthrough: bool,
        z_order: ZOrder,
    },
    /// Hands the fully resolved subtree to a host callback after layout.
    Capture { child: Box<Node>, callback: CallbackId, z_order: ZOrder },
    /// Positions its children by a layout strategy.
    Layout { layout: LayoutStrategy, children: Vec<Node>, z_order: ZOrder },
    /// A run of text in a named font.
    Text { text: String, font: String, size: Option<i64>, fill: Option<Paint>, z_order: ZOrder },
    /// A filled and/or stroked rounded rectangle.
    Rectangle {
        size: Size2,
        corner_radius: CornerRadii,
        background: Option<Paint>,
        border: i64,
        border_fill: Option<Paint>,
        z_order: ZOrder,
    },
    /// An escape hatch: the host draws into the node's final rectangle.
    Draw { size: Size2, draw_fn: CallbackId, z_order: ZOrder },
    /// An already-resolved subtree embedded as-is; it is treated as final
    /// and never re-resolved or re-diffed.
    Resolved(ResolvedNode),
}

/// The scene tree after resource lookups: fonts bound, text shaped, and
/// every node carrying a rectangle that layout assigns in absolute
/// (root-relative) coordinates.
#[derive(Debug)]
pub enum ResolvedNode {
    Null,
    Interact {
        child: Box<ResolvedNode>,
        callback: CallbackId,
        rect: Rect,
        id: Identity,
        passthrough: bool,
        z_order: ZOrder,
    },
    Capture { child: Box<ResolvedNode>, callback: CallbackId, rect: Rect, z_order: ZOrder },
    Layout { layout: LayoutStrategy, children: Vec<ResolvedNode>, rect: Rect, z_order: ZOrder },
    Text {
        text: String,
        font: String,
        font_data: FontMetrics,
        blob: Option<ShapedBlob>,
        size: i64,
        fill: Paint,
        rect: Rect,
        z_order: ZOrder,
    },
    Rectangle {
        rect: Rect,
        corner_radii: CornerRadii,
        background: Option<Paint>,
        border: i64,
        border_fill: Option<Paint>,
        z_order: ZOrder,
    },
    Draw { rect: Rect, draw_fn: CallbackId, z_order: ZOrder },
}

/// The mathematical value of a [`Node`].
pub enum NodeV {
    Null,
    Interact {
        child: Box<NodeV>,
        callback: CallbackId,
        id: Identity,
        passthrough: bool,
        z_order: ZOrder,
    },
    Capture { child: Box<NodeV>, callback: CallbackId, z_order: ZOrder },
    Layout { layout: StrategyV, children: Seq<NodeV>, z_order: ZOrder },
    Text {
        text: Seq<char>,
        font: Seq<char>,
        size: Option<i64>,
        fill: Option<PaintV>,
        z_order: ZOrder,
    },
    Rectangle {
        size: Size2,
        corner_radius: CornerRadii,
        background: Option<PaintV>,
        border: i64,
        border_fill: Option<PaintV>,
        z_order: ZOrder,
    },
    Draw { size: Size2, draw_fn: CallbackId, z_order: ZOrder },
    Resolved(RNodeV),
}

/// The mathematical value of a [`ResolvedNode`].
pub enum RNodeV {
    Null,
    Interact {
        child: Box<RNodeV>,
        callback: CallbackId,
        rect: Rect,
        id: Identity,
        passthrough: bool,
        z_order: ZOrder,
    },
    Capture { child: Box<RNodeV>, callback: CallbackId, rect: Rect, z_order: ZOrder },
    Layout { layout: StrategyV, children: Seq<RNodeV>, rect: Rect, z_order: ZOrder },
    Text {
        text: Seq<char>,
        font: Seq<char>,
        font_data: FontMetrics,
        blob: Option<Seq<ShapedGlyph>>,
        size: i64,
        fill: PaintV,
        rect: Rect,
        z_order: ZOrder,
    },
    Rectangle {
        rect: Rect,
        corner_radii: CornerRadii,
        background: Option<PaintV>,
        border: i64,
        border_fill: Option<PaintV>,
        z_order: ZOrder,
    },
    Draw { rect: Rect, draw_fn: CallbackId, z_order: ZOrder },
}

/// The view of an optional paint.
pub open spec fn opt_paint_view(o: Option<Paint>) -> Option<PaintV> {
    match o {
        Some(p) => Some(p@),
        None => None,
    }
}

/// The view of an optional shaped blob.
pub open spec fn opt_blob_view(o: Option<ShapedBlob>) -> Option<Seq<ShapedGlyph>> {
    match o {
        Some(b) => Some(b@),
        None => None,
    }
}

impl Node {
    /// The views of a sequence of nodes, in order.
    pub open spec fn view_children(s: Seq<Node>) -> Seq<NodeV>
        decreases s,
    {
        if s.len() == 0 {
            Seq::empty()
        } else {
            Node::view_children(s.drop_last()).push(s.last()@)
        }
    }
}

impl View for Node {
    type V = NodeV;

    open spec fn view(&self) -> NodeV
        decreases self,
    {
        match self {
            Node::Null => NodeV::Null,
            Node::Interact { child, callback, id, passthrough, z_order } => NodeV::Interact {
                child: Box::new((**child)@),
                callback: *callback,
                id: *id,
                passthrough: *passthrough,
                z_order: *z_order,
            },
            Node::Capture { child, callback, z_order } => NodeV::Capture {
                child: Box::new((**child)@),
                callback: *callback,
                z_order: *z_order,
            },
            Node::Layout { layout, children, z_order } => NodeV::Layout {
                layout: layout@,
                children: Node::view_children(children@),
                z_order: *z_order,
            },
            Node::Text { text, font, size, fill, z_order } => NodeV::Text {
                text: text@,
                font: font@,
                size: *size,
                fill: opt_paint_view(*fill),
                z_order: *z_order,
            },
            Node::Rectangle { size, corner_radius, background, border, border_fill, z_order } => NodeV::Rectangle {
                size: *size,
                corner_radius: *corner_radius,
                background: opt_paint_view(*background),
                border: *border,
                border_fill: opt_paint_view(*border_fill),
                z_order: *z_order,
            },
            Node::Draw { size, draw_fn, z_order } => NodeV::Draw {
                size: *size,
                draw_fn: *draw_fn,
                z_order: *z_order,
            },
            Node::Resolved(r) => NodeV::Resolved(r@),
        }
    }
}

impl ResolvedNode {
    /// The views of a sequence of resolved nodes, in order.
    pub open spec fn view_children(s: Seq<ResolvedNode>) -> Seq<RNodeV>
        decreases s,
    {
        if s.len() == 0 {
            Seq::empty()
        } else {
            ResolvedNode::view_children(s.drop_last()).push(s.last()@)
        }
    }
}

impl View for ResolvedNode {
    type V = RNodeV;

    open spec fn view(&self) -> RNodeV
        decreases self,
    {
        match self {
            ResolvedNode::Null => RNodeV::Null,
            ResolvedNode::Interact { child, callback, rect, id, passthrough, z_order } => RNodeV::Interact {
                child: Box::new((**child)@),
                callback: *callback,
                rect: *rect,
                id: *id,
                passthrough: *passthrough,
                z_order: *z_order,
            },
            ResolvedNode::Capture { child, callback, rect, z_order } => RNodeV::Capture {
                child: Box::new((**child)@),
                callback: *callback,
                rect: *rect,
                z_order: *z_order,
            },
            ResolvedNode::Layout { layout, children, rect, z_order } => RNodeV::Layout {
                layout: layout@,
                children: ResolvedNode::view_children(children@),
                rect: *rect,
                z_order: *z_order,
            },
            ResolvedNode::Text { text, font, font_data, blob, size, fill, rect, z_order } => RNodeV::Text {
                text: text@,
                font: font@,
                font_data: *font_data,
                blob: opt_blob_view(*blob),
                size: *size,
                fill: fill@,
                rect: *rect,
                z_order: *z_order,
            },
            ResolvedNode::Rectangle { rect, corner_radii, background, border, border_fill, z_order } => RNodeV::Rectangle {
                rect: *rect,
                corner_radii: *corner_radii,
                background: opt_paint_view(*background),
                border: *border,
                border_fill: opt_paint_view(*border_fill),
                z_order: *z_order,
            },
            ResolvedNode::Draw { rect, draw_fn, z_order } => RNodeV::Draw {
                rect: *rect,
                draw_fn: *draw_fn,
                z_order: *z_order,
            },
        }
    }
}

impl NodeV {
    /// The paint-order bucket of a node; nodes without one use the default.
    pub open spec fn spec_z(self) -> ZOrder {
        match self {
            NodeV::Interact { z_order, .. } => z_order,
            NodeV::Capture { z_order, .. } => z_order,
            NodeV::Layout { z_order, .. } => z_order,
            NodeV::Text { z_order, .. } => z_order,
            NodeV::Rectangle { z_order, .. } => z_order,
            NodeV::Draw { z_order, .. } => z_order,
            _ => ZOrder::Above,
        }
    }
}

impl RNodeV {
    /// The rectangle a resolved node carries; `Null` has the zero rectangle.
    pub open spec fn spec_rect(self) -> Rect {
        match self {
            RNodeV::Interact { rect, .. } => rect,
            RNodeV::Capture { rect, .. } => rect,
            RNodeV::Layout { rect, .. } => rect,
            RNodeV::Text { rect, .. } => rect,
            RNodeV::Rectangle { rect, .. } => rect,
            RNodeV::Draw { rect, .. } => rect,
            RNodeV::Null => Rect {
                origin: Point2 { x: 0i64, y: 0i64 },
                size: Size2 { width: 0i64, height: 0i64 },
            },
        }
    }

    pub open spec fn spec_size(self) -> Size2 {
        self.spec_rect().size
    }

    pub open spec fn spec_origin(self) -> Point2 {
        self.spec_rect().origin
    }

    pub open spec fn spec_z(self) -> ZOrder {
        match self {
            RNodeV::Interact { z_order, .. } => z_order,
            RNodeV::Capture { z_order, .. } => z_order,
            RNodeV::Layout { z_order, .. } => z_order,
            RNodeV::Text { z_order, .. } => z_order,
            RNodeV::Rectangle { z_order, .. } => z_order,
            RNodeV::Draw { z_order, .. } => z_order,
            RNodeV::Null => ZOrder::Above,
        }
    }

    /// The node with its rectangle replaced: `Text` keeps its measured size
    /// and only moves, `Null` is unchanged, every other variant takes the
    /// whole rectangle.
    pub open spec fn with_rect(self, r: Rect) -> RNodeV {
        match self {
            RNodeV::Interact { child, callback, rect, id, passthrough, z_order } => RNodeV::Interact {
                child,
                callback,
                rect: r,
                id,
                passthrough,
                z_order,
            },
            RNodeV::Capture { child, callback, rect, z_order } => RNodeV::Capture {
                child,
                callback,
                rect: r,
                z_order,
            },
            RNodeV::Layout { layout, children, rect, z_order } => RNodeV::Layout {
                layout,
                children,
                rect: r,
                z_order,
            },
            RNodeV::Text { text, font, font_data, blob, size, fill, rect, z_order } => RNodeV::Text {
                text,
                font,
                font_data,
                blob,
                size,
                fill,
                rect: Rect { origin: r.origin, size: rect.size },
                z_order,
            },
            RNodeV::Rectangle { rect, corner_radii, background, border, border_fill, z_order } => RNodeV::Rectangle {
                rect: r,
                corner_radii,
                background,
                border,
                border_fill,
                z_order,
            },
            RNodeV::Draw { rect, draw_fn, z_order } => RNodeV::Draw { rect: r, draw_fn, z_order },
            RNodeV::Null => RNodeV::Null,
        }
    }
}

impl ResolvedNode {
    /// The top-left position of this node.
    pub fn position(&self) -> (r: Point2)
        ensures
            r == self@.spec_origin(),
    {
        match self {
            ResolvedNode::Interact { rect, .. } => rect.origin,
            ResolvedNode::Capture { rect, .. } => rect.origin,
            ResolvedNode::Layout { rect, .. } => rect.origin,
            ResolvedNode::Text { rect, .. } => rect.origin,
            ResolvedNode::Rectangle { rect, .. } => rect.origin,
            ResolvedNode::Draw { rect, .. } => rect.origin,
            ResolvedNode::Null => Point2 { x: 0, y: 0 },
        }
    }

    /// The size of this node.
    pub fn size(&self) -> (r: Size2)
        ensures
            r == self@.spec_size(),
    {
        match self {
            ResolvedNode::Interact { rect, .. } => rect.size,
            ResolvedNode::Capture { rect, .. } => rect.size,
            ResolvedNode::Layout { rect, .. } => rect.size,
            ResolvedNode::Text { rect, .. } => rect.size,
            ResolvedNode::Rectangle { rect, .. } => rect.size,
            ResolvedNode::Draw { rect, .. } => rect.size,
            ResolvedNode::Null => Size2 { width: 0, height: 0 },
        }
    }

    /// The node's rectangle: position and size together.
    pub fn rect(&self) -> (r: Rect)
        ensures
            r == self@.spec_rect(),
    {
        Rect { origin: self.position(), size: self.size() }
    }

    /// Replaces the node's rectangle.  A `Text` node keeps its measured size
    /// and only moves; `Null` is unchanged.
    pub fn set_rect(&mut self, r: Rect)
        ensures
            final(self)@ == old(self)@.with_rect(r),
    {
        match self {
            ResolvedNode::Interact { rect, .. } => {
                *rect = r;
            },
            ResolvedNode::Capture { rect, .. } => {
                *rect = r;
            },
            ResolvedNode::Layout { rect, .. } => {
                *rect = r;
            },
            ResolvedNode::Text { rect, .. } => {
                *rect = Rect { origin: r.origin, size: rect.size };
            },
            ResolvedNode::Rectangle { rect, .. } => {
                *rect = r;
            },
            ResolvedNode::Draw { rect, .. } => {
                *rect = r;
            },
            ResolvedNode::Null => {},
        }
    }

    pub fn is_null(&self) -> (r: bool)
        ensures
            r == (self@ is Null),
    {
        match self {
            ResolvedNode::Null => true,
            _ => false,
        }
    }

    pub fn is_interact(&self) -> (r: bool)
        ensures
            r == (self@ is Interact),
    {
        match self {
            ResolvedNode::Interact { .. } => true,
            _ => false,
        }
    }

    /// The paint-order bucket of this node.
    pub fn z_order(&self) -> (r: ZOrder)
        ensures
            r == self@.spec_z(),
    {
        match self {
            ResolvedNode::Interact { z_order, .. } => *z_order,
            ResolvedNode::Capture { z_order, .. } => *z_order,
            ResolvedNode::Layout { z_order, .. } => *z_order,
            ResolvedNode::Text { z_order, .. } => *z_order,
            ResolvedNode::Rectangle { z_order, .. } => *z_order,
            ResolvedNode::Draw { z_order, .. } => *z_order,
            ResolvedNode::Null => ZOrder::Above,
        }
    }
}

impl Node {
    /// The paint-order bucket of this node.
    pub fn z_order(&self) -> (r: ZOrder)
        ensures
            r == self@.spec_z(),
    {
        match self {
            Node::Interact { z_order, .. } => *z_order,
            Node::Capture { z_order, .. } => *z_order,
            Node::Layout { z_order, .. } => *z_order,
            Node::Text { z_order, .. } => *z_order,
            Node::Rectangle { z_order, .. } => *z_order,
            Node::Draw { z_order, .. } => *z_order,
            _ => ZOrder::Above,
        }
    }
}

impl Default for Node {
    fn default() -> (r: Self)
        ensures
            r@ == NodeV::Null,
    {
        Node::Null
    }
}

/// The absent node.
pub fn null() -> (r: Node)
    ensures
        r@ == NodeV::Null,
{
    Node::Null
}

/// Either the given node or nothing, by a condition.
pub fn iff(cond: bool, node: Node) -> (r: Node)
    ensures
        cond ==> r@ == node@,
        !cond ==> r@ == NodeV::Null,
{
    if cond {
        node
    } else {
        Node::Null
    }
}

/// A text node in the default font, with fallback size and fill.
pub fn text(content: String) -> (r: Node)
    ensures
        r@ == (NodeV::Text {
            text: content@,
            font: "sans-serif"@,
            size: None,
            fill: None,
            z_order: ZOrder::Above,
        }),
{
    Node::Text {
        text: content,
        font: String::from_str("sans-serif"),
        size: None,
        fill: None,
        z_order: ZOrder::Above,
    }
}

/// A text node with explicit font, size and fill.
pub fn styled_text(content: String, font: String, size: Option<i64>, fill: Option<Paint>) -> (r:
    Node)
    ensures
        r@ == (NodeV::Text {
            text: content@,
            font: font@,
            size,
            fill: opt_paint_view(fill),
            z_order: ZOrder::Above,
        }),
{
    Node::Text { text: content, font, size, fill, z_order: ZOrder::Above }
}

/// A rectangle node.
pub fn rectangle(
    size: Size2,
    corner_radius: CornerRadii,
    background: Option<Paint>,
    border: i64,
    border_fill: Option<Paint>,
) -> (r: Node)
    ensures
        r@ == (NodeV::Rectangle {
            size,
            corner_radius,
            background: opt_paint_view(background),
            border,
            border_fill: opt_paint_view(border_fill),
            z_order: ZOrder::Above,
        }),
{
    Node::Rectangle { size, corner_radius, background, border, border_fill, z_order: ZOrder::Above }
}

/// A custom-draw node: the host draws into the node's final rectangle.
pub fn draw(size: Size2, draw_fn: CallbackId) -> (r: Node)
    ensures
        r@ == (NodeV::Draw { size, draw_fn, z_order: ZOrder::Above }),
{
    Node::Draw { size, draw_fn, z_order: ZOrder::Above }
}

/// An interaction wrapper.  The identity is handed in by the caller; the
/// same construction site and disambiguation key must yield the same
/// identity across frames.
pub fn interact(child: Node, callback: CallbackId, id: Identity, passthrough: bool) -> (r: Node)
    ensures
        r@ == (NodeV::Interact {
            child: Box::new(child@),
            callback,
            id,
            passthrough,
            z_order: ZOrder::Above,
        }),
{
    Node::Interact { child: Box::new(child), callback, id, passthrough, z_order: ZOrder::Above }
}

/// A capture wrapper: the host callback receives the resolved subtree after
/// layout.
pub fn capture(child: Node, callback: CallbackId) -> (r: Node)
    ensures
        r@ == (NodeV::Capture { child: Box::new(child@), callback, z_order: ZOrder::Above }),
{
    Node::Capture { child: Box::new(child), callback, z_order: ZOrder::Above }
}

/// The node's paint-order bucket replaced, where the variant carries one;
/// `Null` and `Resolved` are returned unchanged.
pub fn z_order(node: Node, z: ZOrder) -> (r: Node)
    ensures
        r@ == spec_with_z(node@, z),
{
    match node {
        Node::Interact { child, callback, id, passthrough, .. } => Node::Interact {
            child,
            callback,
            id,
            passthrough,
            z_order: z,
        },
        Node::Capture { child, callback, .. } => Node::Capture { child, callback, z_order: z },
        Node::Layout { layout, children, .. } => Node::Layout { layout, children, z_order: z },
        Node::Text { text, font, size, fill, .. } => Node::Text {
            text,
            font,
            size,
            fill,
            z_order: z,
        },
        Node::Rectangle { size, corner_radius, background, border, border_fill, .. } => Node::Rectangle {
            size,
            corner_radius,
            background,
            border,
            border_fill,
            z_order: z,
        },
        Node::Draw { size, draw_fn, .. } => Node::Draw { size, draw_fn, z_order: z },
        other => other,
    }
}

/// The value of a node with its paint-order bucket replaced, where the
/// variant carries one.
pub open spec fn spec_with_z(n: NodeV, z: ZOrder) -> NodeV {
    match n {
        NodeV::Interact { child, callback, id, passthrough, z_order } => NodeV::Interact {
            child,
            callback,
            id,
            passthrough,
            z_order: z,
        },
        NodeV::Capture { child, callback, z_order } => NodeV::Capture {
            child,
            callback,
            z_order: z,
        },
        NodeV::Layout { layout, children, z_order } => NodeV::Layout { layout, children, z_order: z },
        NodeV::Text { text, font, size, fill, z_order } => NodeV::Text {
            text,
            font,
            size,
            fill,
            z_order: z,
        },
        NodeV::Rectangle { size, corner_radius, background, border, border_fill, z_order } => NodeV::Rectangle {
            size,
            corner_radius,
            background,
            border,
            border_fill,
            z_order: z,
        },
        NodeV::Draw { size, draw_fn, z_order } => NodeV::Draw { size, draw_fn, z_order: z },
        other => other,
    }
}

/// Deep copy of an optional paint; the result has the same view.
pub fn dup_opt_paint(o: &Option<Paint>) -> (r: Option<Paint>)
    ensures
        opt_paint_view(r) == opt_paint_view(*o),
{
    match o {
        Some(p) => Some(p.duplicate()),
        None => None,
    }
}

impl ResolvedNode {
    /// Deep copy; the result has the same mathematical value.
    pub fn duplicate(&self) -> (r: ResolvedNode)
        ensures
            r@ == self@,
        decreases self,
    {
        match self {
            ResolvedNode::Null => ResolvedNode::Null,
            ResolvedNode::Interact { child, callback, rect, id, passthrough, z_order } => {
                let c = (**child).duplicate();
                ResolvedNode::Interact {
                    child: Box::new(c),
                    callback: *callback,
                    rect: *rect,
                    id: *id,
                    passthrough: *passthrough,
                    z_order: *z_order,
                }
            },
            ResolvedNode::Capture { child, callback, rect, z_order } => {
                let c = (**child).duplicate();
                ResolvedNode::Capture {
                    child: Box::new(c),
                    callback: *callback,
                    rect: *rect,
                    z_order: *z_order,
                }
            },
            ResolvedNode::Layout { layout, children, rect, z_order } => {
                let mut out: Vec<ResolvedNode> = Vec::new();
                let mut i: usize = 0;
                #[verifier::loop_isolation(false)]
                while i < children.len()
                    invariant
                        i <= children@.len(),
                        out@.len() == i,
                        forall|j: int| 0 <= j < i ==> (#[trigger] out@[j])@ == children@[j]@,
                    decreases children@.len() - i,
                {
                    proof {
                        assert(decreases_to!(*self => *children));
                        assert(decreases_to!(*children => children@[i as int]));
                    }
                    let c = children[i].duplicate();
                    out.push(c);
                    i = i + 1;
                }
                proof {
                    lemma_rview_children_eq(out@, children@);
                }
                ResolvedNode::Layout {
                    layout: layout.duplicate(),
                    children: out,
                    rect: *rect,
                    z_order: *z_order,
                }
            },
            ResolvedNode::Text { text, font, font_data, blob, size, fill, rect, z_order } => {
                let b: Option<ShapedBlob> = match blob {
                    Some(bb) => Some(bb.duplicate()),
                    None => None,
                };
                ResolvedNode::Text {
                    text: text.clone(),
                    font: font.clone(),
                    font_data: *font_data,
                    blob: b,
                    size: *size,
                    fill: fill.duplicate(),
                    rect: *rect,
                    z_order: *z_order,
                }
            },
            ResolvedNode::Rectangle { rect, corner_radii, background, border, border_fill, z_order } => ResolvedNode::Rectangle {
                rect: *rect,
                corner_radii: *corner_radii,
                background: dup_opt_paint(background),
                border: *border,
                border_fill: dup_opt_paint(border_fill),
                z_order: *z_order,
            },
            ResolvedNode::Draw { rect, draw_fn, z_order } => ResolvedNode::Draw {
                rect: *rect,
                draw_fn: *draw_fn,
                z_order: *z_order,
            },
        }
    }
}

/// Sequences of resolved nodes with elementwise-equal views have equal view
/// sequences.
pub proof fn lemma_rview_children_eq(a: Seq<ResolvedNode>, b: Seq<ResolvedNode>)
    requires
        a.len() == b.len(),
        forall|i: int| 0 <= i < a.len() ==> (#[trigger] a[i])@ == b[i]@,
    ensures
        ResolvedNode::view_children(a) == ResolvedNode::view_children(b),
{
    lemma_rview_children_len(a);
    lemma_rview_children_len(b);
    assert forall|i: int| 0 <= i < a.len() implies ResolvedNode::view_children(a)[i]
        == ResolvedNode::view_children(b)[i] by {
        lemma_rview_children_index(a, i);
        lemma_rview_children_index(b, i);
    }
    assert(ResolvedNode::view_children(a) =~= ResolvedNode::view_children(b));
}

/// Pushing one resolved node extends the view of the pushed list.
pub proof fn lemma_rview_children_push(s: Seq<ResolvedNode>, x: ResolvedNode)
    ensures
        ResolvedNode::view_children(s.push(x)) == ResolvedNode::view_children(s).push(x@),
{
    let p = s.push(x);
    assert(p.drop_last() =~= s);
    assert(p.last() == x);
    assert(ResolvedNode::view_children(p) == ResolvedNode::view_children(p.drop_last()).push(
        p.last()@,
    ));
}

/// Views distribute over concatenation of resolved node lists.
pub proof fn lemma_rview_children_concat(a: Seq<ResolvedNode>, b: Seq<ResolvedNode>)
    ensures
        ResolvedNode::view_children(a + b) == ResolvedNode::view_children(a)
            + ResolvedNode::view_children(b),
    decreases b.len(),
{
    if b.len() == 0 {
        assert(a + b =~= a);
        assert(ResolvedNode::view_children(b) == Seq::<RNodeV>::empty());
        assert(ResolvedNode::view_children(a) + ResolvedNode::view_children(b)
            =~= ResolvedNode::view_children(a));
    } else {
        lemma_rview_children_concat(a, b.drop_last());
        let ab = a + b;
        assert(ab.drop_last() =~= a + b.drop_last());
        assert(ab.last() == b.last());
        assert(ResolvedNode::view_children(ab) == ResolvedNode::view_children(ab.drop_last()).push(
            ab.last()@,
        ));
        assert(ResolvedNode::view_children(b) == ResolvedNode::view_children(b.drop_last()).push(
            b.last()@,
        ));
        assert(ResolvedNode::view_children(a) + ResolvedNode::view_children(b.drop_last()).push(
            b.last()@,
        ) =~= (ResolvedNode::view_children(a) + ResolvedNode::view_children(b.drop_last())).push(
            b.last()@,
        ));
    }
}

/// Views distribute over indexing: the view of the `i`-th node is the
/// `i`-th view.
pub proof fn lemma_view_children_index(s: Seq<Node>, i: int)
    requires
        0 <= i < s.len(),
    ensures
        Node::view_children(s).len() == s.len(),
        Node::view_children(s)[i] == s[i]@,
    decreases s.len(),
{
    lemma_view_children_len(s);
    lemma_view_children_len(s.drop_last());
    assert(Node::view_children(s) == Node::view_children(s.drop_last()).push(s.last()@));
    if i < s.len() - 1 {
        lemma_view_children_index(s.drop_last(), i);
        assert(s.drop_last()[i] == s[i]);
    } else {
        assert(s.last() == s[i]);
    }
}

/// The length of a view sequence equals the length of the node sequence.
pub proof fn lemma_view_children_len(s: Seq<Node>)
    ensures
        Node::view_children(s).len() == s.len(),
    decreases s.len(),
{
    if s.len() > 0 {
        lemma_view_children_len(s.drop_last());
        assert(Node::view_children(s) == Node::view_children(s.drop_last()).push(s.last()@));
    } else {
        assert(Node::view_children(s) == Seq::<NodeV>::empty());
    }
}

/// Views distribute over indexing for resolved nodes.
pub proof fn lemma_rview_children_index(s: Seq<ResolvedNode>, i: int)
    requires
        0 <= i < s.len(),
    ensures
        ResolvedNode::view_children(s).len() == s.len(),
        ResolvedNode::view_children(s)[i] == s[i]@,
    decreases s.len(),
{
    lemma_rview_children_len(s);
    lemma_rview_children_len(s.drop_last());
    assert(ResolvedNode::view_children(s) == ResolvedNode::view_children(s.drop_last()).push(
        s.last()@,
    ));
    if i < s.len() - 1 {
        lemma_rview_children_index(s.drop_last(), i);
        assert(s.drop_last()[i] == s[i]);
    } else {
        assert(s.last() == s[i]);
    }
}

/// The length of a resolved view sequence equals the node sequence's.
pub proof fn lemma_rview_children_len(s: Seq<ResolvedNode>)
    ensures
        ResolvedNode::view_children(s).len() == s.len(),
    decreases s.len(),
{
    if s.len() > 0 {
        lemma_rview_children_len(s.drop_last());
        assert(ResolvedNode::view_children(s) == ResolvedNode::view_children(s.drop_last()).push(
            s.last()@,
        ));
    } else {
        assert(ResolvedNode::view_children(s) == Seq::<RNodeV>::empty());
    }
}

} // verus!
