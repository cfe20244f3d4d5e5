use cape::geom::{point2, rect, size2};
use cape::identity::Identity;
use cape::layout::StackItem;
use cape::node::{
    draw, iff, interact, null, rectangle, text, z_order, CallbackId, CornerRadii, Node,
    ResolvedNode,
};
use cape::paint::{rgb, rgba, Paint, ZOrder};
use cape::text::{shape_text, FontMetrics, Resources};

#[test]
fn iff_keeps_or_drops_the_node() {
    let kept = iff(true, text(String::from("x")));
    assert!(matches!(kept, Node::Text { .. }));
    let dropped = iff(false, text(String::from("x")));
    assert!(matches!(dropped, Node::Null));
    assert!(matches!(null(), Node::Null));
}

#[test]
fn z_order_replaces_the_bucket_where_one_exists() {
    let n = z_order(
        rectangle(size2(1, 1), CornerRadii::uniform(0), None, 0, None),
        ZOrder::Top,
    );
    assert_eq!(n.z_order(), ZOrder::Top);
    // The absent node has no bucket; it reports the default.
    let n = z_order(null(), ZOrder::Top);
    assert_eq!(n.z_order(), ZOrder::Above);
    assert_eq!(ZOrder::default(), ZOrder::Above);
}

#[test]
fn draw_nodes_resolve_to_their_size() {
    let mut res = Resources::new(12, Paint::Solid(rgb(0, 0, 0)));
    let out = draw(size2(8, 9), CallbackId::new(5)).resolve(&mut res).unwrap().unwrap();
    match out {
        ResolvedNode::Draw { rect: r, draw_fn, .. } => {
            assert_eq!(r.size, size2(8, 9));
            assert_eq!(draw_fn, CallbackId::new(5));
        }
        _ => panic!("expected a draw node"),
    }
}

#[test]
fn resolved_accessors_report_geometry() {
    let mut res = Resources::new(12, Paint::Solid(rgb(0, 0, 0)));
    let mut out = rectangle(size2(10, 20), CornerRadii::uniform(2), None, 0, None)
        .resolve(&mut res)
        .unwrap()
        .unwrap();
    assert_eq!(out.size(), size2(10, 20));
    assert_eq!(out.position(), point2(0, 0));
    out.set_rect(rect(5, 6, 10, 20));
    assert_eq!(out.rect(), rect(5, 6, 10, 20));
    assert!(!out.is_null());
    assert!(!out.is_interact());
    assert!(ResolvedNode::Null.is_null());
    let wrapped = interact(
        rectangle(size2(1, 1), CornerRadii::uniform(0), None, 0, None),
        CallbackId::new(1),
        Identity::new(1),
        true,
    )
    .resolve(&mut res)
    .unwrap()
    .unwrap();
    assert!(wrapped.is_interact());
    assert_eq!(wrapped.z_order(), ZOrder::Above);
}

#[test]
fn text_nodes_keep_their_size_when_repositioned() {
    let mut res = Resources::new(12, Paint::Solid(rgb(0, 0, 0)));
    res.add_font(
        String::from("sans-serif"),
        FontMetrics { advance: 500, line_height: 1000 },
    );
    let mut out = text(String::from("ab")).resolve(&mut res).unwrap().unwrap();
    let measured = out.size();
    out.set_rect(rect(40, 40, 999, 999));
    assert_eq!(out.position(), point2(40, 40));
    assert_eq!(out.size(), measured);
}

#[test]
fn colors_and_paints() {
    let c = rgba(1, 2, 3, 4);
    assert_eq!(c.red, 1);
    assert_eq!(c.alpha, 4);
    assert_eq!(rgb(1, 2, 3).alpha, 255);
    let p = Paint::Solid(rgb(9, 9, 9));
    assert_eq!(p.duplicate(), p);
}

#[test]
fn shaping_is_per_character() {
    let m = FontMetrics { advance: 1000, line_height: 1500 };
    let (blob, bounds) = shape_text("hi", m, 10);
    assert_eq!(blob.glyphs.len(), 2);
    assert_eq!(blob.glyphs[0].id, 'h' as u32);
    assert_eq!(blob.glyphs[1].id, 'i' as u32);
    assert_eq!(blob.glyphs[1].offset, point2(10, 0));
    assert_eq!(bounds, size2(20, 15));
    let (empty, zero) = shape_text("", m, 10);
    assert!(empty.glyphs.is_empty());
    assert_eq!(zero.width, 0);
}

#[test]
fn stack_item_presets() {
    assert_eq!(StackItem::center().xy.x.thousandths, 500);
    assert_eq!(StackItem::top_left(), StackItem::default());
    assert_eq!(StackItem::bottom_right().xy_anchor.y.thousandths, 1000);
    assert_eq!(StackItem::fill().width.unwrap().thousandths, 1000);
    assert_eq!(StackItem::left_center().xy.y.thousandths, 500);
    assert_eq!(StackItem::top_center().xy.x.thousandths, 500);
    assert_eq!(StackItem::top_right().xy.x.thousandths, 1000);
    assert_eq!(StackItem::right_center().xy.x.thousandths, 1000);
    assert_eq!(StackItem::bottom_center().xy.y.thousandths, 1000);
    assert_eq!(StackItem::bottom_left().xy.y.thousandths, 1000);
}

#[test]
fn empty_node_error_message() {
    assert_eq!(
        cape::Error::EmptyNode.message(),
        "invalid child placed in an interact/capture node"
    );
}
