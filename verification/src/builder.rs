//! Builders for layout nodes: fluent construction of rows, columns, stacks
//! and containers.
//!
//! Each builder collects children and their per-child items in parallel
//! lists and finishes into a layout node.  A container holds at most one
//! child; exceeding a builder's capacity is a caller error, caught here as
//! a precondition rather than a runtime abort.

use vstd::prelude::*;
use crate::geom::Sides2;
use crate::layout::{
    ColumnItem, ColumnLayout, ContainerLayout, LayoutStrategy, RowItem, RowLayout, StackItem,
    StackLayout, StrategyV, MAX_CHILDREN,
};
use crate::node::{Node, NodeV};
use crate::paint::ZOrder;

verus! {

/// A row under construction.
pub struct Row {
    pub children: Vec<Node>,
    pub items: Vec<RowItem>,
    pub margin: Sides2,
    pub spacing: i64,
}

impl Row {
    pub fn new() -> (r: Row)
        ensures
            r.children@.len() == 0,
            r.items@.len() == 0,
            r.margin == (Sides2 { left: 0i64, right: 0i64, top: 0i64, bottom: 0i64 }),
            r.spacing == 0i64,
    {
        Row {
            children: Vec::new(),
            items: Vec::new(),
            margin: Sides2 { left: 0, right: 0, top: 0, bottom: 0 },
            spacing: 0,
        }
    }

    pub fn margin(self, margin: Sides2) -> (r: Row)
        ensures
            r == (Row { margin, ..self }),
    {
        Row { margin, ..self }
    }

    pub fn spacing(self, spacing: i64) -> (r: Row)
        ensures
            r == (Row { spacing, ..self }),
    {
        Row { spacing, ..self }
    }

    /// Appends a child with default item settings.
    pub fn child(self, node: Node) -> (r: Row)
        requires
            self.children@.len() < MAX_CHILDREN,
        ensures
            r.children@ == self.children@.push(node),
            r.items@ == self.items@.push(
                RowItem {
                    align: crate::layout::Align::Begin,
                    margin: Sides2 { left: 0i64, right: 0i64, top: 0i64, bottom: 0i64 },
                    fill: false,
                },
            ),
            r.margin == self.margin,
            r.spacing == self.spacing,
    {
        let mut b = self;
        b.children.push(node);
        b.items.push(Default::default());
        b
    }

    /// Appends a child with explicit item settings.
    pub fn child_item(self, node: Node, item: RowItem) -> (r: Row)
        requires
            self.children@.len() < MAX_CHILDREN,
        ensures
            r.children@ == self.children@.push(node),
            r.items@ == self.items@.push(item),
            r.margin == self.margin,
            r.spacing == self.spacing,
    {
        let mut b = self;
        b.children.push(node);
        b.items.push(item);
        b
    }

    /// Finishes the builder into a layout node.
    pub fn into_node(self) -> (r: Node)
        ensures
            r@ == (NodeV::Layout {
                layout: StrategyV::Row {
                    items: self.items@,
                    margin: self.margin,
                    spacing: self.spacing,
                },
                children: Node::view_children(self.children@),
                z_order: ZOrder::Above,
            }),
    {
        Node::Layout {
            layout: LayoutStrategy::Row(
                RowLayout { items: self.items, margin: self.margin, spacing: self.spacing },
            ),
            children: self.children,
            z_order: ZOrder::Above,
        }
    }
}

/// A column under construction.
pub struct Column {
    pub children: Vec<Node>,
    pub items: Vec<ColumnItem>,
    pub margin: Sides2,
    pub spacing: i64,
}

impl Column {
    pub fn new() -> (r: Column)
        ensures
            r.children@.len() == 0,
            r.items@.len() == 0,
            r.margin == (Sides2 { left: 0i64, right: 0i64, top: 0i64, bottom: 0i64 }),
            r.spacing == 0i64,
    {
        Column {
            children: Vec::new(),
            items: Vec::new(),
            margin: Sides2 { left: 0, right: 0, top: 0, bottom: 0 },
            spacing: 0,
        }
    }

    pub fn margin(self, margin: Sides2) -> (r: Column)
        ensures
            r == (Column { margin, ..self }),
    {
        Column { margin, ..self }
    }

    pub fn spacing(self, spacing: i64) -> (r: Column)
        ensures
            r == (Column { spacing, ..self }),
    {
        Column { spacing, ..self }
    }

    /// Appends a child with default item settings.
    pub fn child(self, node: Node) -> (r: Column)
        requires
            self.children@.len() < MAX_CHILDREN,
        ensures
            r.children@ == self.children@.push(node),
            r.items@ == self.items@.push(
                ColumnItem {
                    align: crate::layout::Align::Begin,
                    margin: Sides2 { left: 0i64, right: 0i64, top: 0i64, bottom: 0i64 },
                    fill: false,
                },
            ),
            r.margin == self.margin,
            r.spacing == self.spacing,
    {
        let mut b = self;
        b.children.push(node);
        b.items.push(Default::default());
        b
    }

    /// Appends a child with explicit item settings.
    pub fn child_item(self, node: Node, item: ColumnItem) -> (r: Column)
        requires
            self.children@.len() < MAX_CHILDREN,
        ensures
            r.children@ == self.children@.push(node),
            r.items@ == self.items@.push(item),
            r.margin == self.margin,
            r.spacing == self.spacing,
    {
        let mut b = self;
        b.children.push(node);
        b.items.push(item);
        b
    }

    /// Finishes the builder into a layout node.
    pub fn into_node(self) -> (r: Node)
        ensures
            r@ == (NodeV::Layout {
                layout: StrategyV::Column {
                    items: self.items@,
                    margin: self.margin,
                    spacing: self.spacing,
                },
                children: Node::view_children(self.children@),
                z_order: ZOrder::Above,
            }),
    {
        Node::Layout {
            layout: LayoutStrategy::Column(
                ColumnLayout { items: self.items, margin: self.margin, spacing: self.spacing },
            ),
            children: self.children,
            z_order: ZOrder::Above,
        }
    }
}

/// A stack (overlay) under construction.
pub struct Stack {
    pub children: Vec<Node>,
    pub items: Vec<StackItem>,
    pub margin: Sides2,
    pub width: Option<i64>,
    pub height: Option<i64>,
}

impl Stack {
    pub fn new() -> (r: Stack)
        ensures
            r.children@.len() == 0,
            r.items@.len() == 0,
            r.margin == (Sides2 { left: 0i64, right: 0i64, top: 0i64, bottom: 0i64 }),
            r.width is None,
            r.height is None,
    {
        Stack {
            children: Vec::new(),
            items: Vec::new(),
            margin: Sides2 { left: 0, right: 0, top: 0, bottom: 0 },
            width: None,
            height: None,
        }
    }

    pub fn margin(self, margin: Sides2) -> (r: Stack)
        ensures
            r == (Stack { margin, ..self }),
    {
        Stack { margin, ..self }
    }

    /// Sets the explicit width override.
    pub fn width(self, width: Option<i64>) -> (r: Stack)
        ensures
            r == (Stack { width, ..self }),
    {
        Stack { width, ..self }
    }

    /// Sets the explicit height override.
    pub fn height(self, height: Option<i64>) -> (r: Stack)
        ensures
            r == (Stack { height, ..self }),
    {
        Stack { height, ..self }
    }

    /// Appends a child anchored at the top-left corner.
    pub fn child(self, node: Node) -> (r: Stack)
        requires
            self.children@.len() < MAX_CHILDREN,
        ensures
            r.children@ == self.children@.push(node),
            r.items@ == self.items@.push(StackItem::spec_default()),
            r.margin == self.margin,
            r.width == self.width,
            r.height == self.height,
    {
        let mut b = self;
        b.children.push(node);
        b.items.push(Default::default());
        b
    }

    /// Appends a child with an explicit item descriptor.
    pub fn child_item(self, node: Node, item: StackItem) -> (r: Stack)
        requires
            self.children@.len() < MAX_CHILDREN,
        ensures
            r.children@ == self.children@.push(node),
            r.items@ == self.items@.push(item),
            r.margin == self.margin,
            r.width == self.width,
            r.height == self.height,
    {
        let mut b = self;
        b.children.push(node);
        b.items.push(item);
        b
    }

    /// Finishes the builder into a layout node.
    pub fn into_node(self) -> (r: Node)
        ensures
            r@ == (NodeV::Layout {
                layout: StrategyV::Stack {
                    items: self.items@,
                    margin: self.margin,
                    width: self.width,
                    height: self.height,
                },
                children: Node::view_children(self.children@),
                z_order: ZOrder::Above,
            }),
    {
        Node::Layout {
            layout: LayoutStrategy::Stack(
                StackLayout {
                    items: self.items,
                    margin: self.margin,
                    width: self.width,
                    height: self.height,
                },
            ),
            children: self.children,
            z_order: ZOrder::Above,
        }
    }
}

/// A container under construction: at most one child, inset by a margin.
pub struct Container {
    pub children: Vec<Node>,
    pub margin: Sides2,
}

impl Container {
    pub fn new() -> (r: Container)
        ensures
            r.children@.len() == 0,
            r.margin == (Sides2 { left: 0i64, right: 0i64, top: 0i64, bottom: 0i64 }),
    {
        Container { children: Vec::new(), margin: Sides2 { left: 0, right: 0, top: 0, bottom: 0 } }
    }

    pub fn margin(self, margin: Sides2) -> (r: Container)
        ensures
            r == (Container { margin, ..self }),
    {
        Container { margin, ..self }
    }

    /// Sets the single child; adding a second child is a caller error,
    /// excluded here.
    pub fn child(self, node: Node) -> (r: Container)
        requires
            self.children@.len() < 1,
        ensures
            r.children@ == self.children@.push(node),
            r.margin == self.margin,
    {
        let mut b = self;
        b.children.push(node);
        b
    }

    /// Finishes the builder into a layout node.
    pub fn into_node(self) -> (r: Node)
        ensures
            r@ == (NodeV::Layout {
                layout: StrategyV::Container { margin: self.margin },
                children: Node::view_children(self.children@),
                z_order: ZOrder::Above,
            }),
    {
        Node::Layout {
            layout: LayoutStrategy::Container(ContainerLayout { margin: self.margin }),
            children: self.children,
            z_order: ZOrder::Above,
        }
    }
}

/// An empty row builder.
pub fn row() -> (r: Row)
    ensures
        r.children@.len() == 0,
        r.items@.len() == 0,
{
    Row::new()
}

/// An empty column builder.
pub fn column() -> (r: Column)
    ensures
        r.children@.len() == 0,
        r.items@.len() == 0,
{
    Column::new()
}

/// An empty stack builder.
pub fn stack() -> (r: Stack)
    ensures
        r.children@.len() == 0,
        r.items@.len() == 0,
{
    Stack::new()
}

/// An empty container builder.
pub fn container() -> (r: Container)
    ensures
        r.children@.len() == 0,
{
    Container::new()
}

} // verus!
