use cape::builder::row;
use cape::geom::size2;
use cape::identity::Identity;
use cape::node::{
    capture, interact, null, rectangle, styled_text, text, CallbackId, CornerRadii, Node,
    ResolvedNode,
};
use cape::paint::{rgb, Paint};
use cape::text::{FontMetrics, Resources};
use cape::Error;

fn pool() -> Resources {
    let mut res = Resources::new(12, Paint::Solid(rgb(255, 255, 255)));
    // Half-em advance, 1.2-em line height.
    res.add_font(
        String::from("sans-serif"),
        FontMetrics { advance: 500, line_height: 1200 },
    );
    res
}

fn plain_rect(w: i64, h: i64) -> Node {
    rectangle(size2(w, h), CornerRadii::uniform(0), None, 0, None)
}

#[test]
fn null_resolves_to_nothing() {
    let mut res = pool();
    let out = null().resolve(&mut res).unwrap();
    assert!(out.is_none());
}

#[test]
fn text_measures_from_metrics() {
    let mut res = pool();
    // advance = 500 * 10 / 1000 = 5 per character; line height 12.
    let node = styled_text(String::from("abc"), String::from("sans-serif"), Some(10), None);
    let out = node.resolve(&mut res).unwrap().unwrap();
    match out {
        ResolvedNode::Text { blob, size, rect, .. } => {
            assert_eq!(size, 10);
            assert_eq!(rect.size, size2(15, 12));
            let blob = blob.expect("non-empty text shapes a blob");
            assert_eq!(blob.glyphs.len(), 3);
            assert_eq!(blob.glyphs[0].offset.x, 0);
            assert_eq!(blob.glyphs[1].offset.x, 5);
            assert_eq!(blob.glyphs[2].offset.x, 10);
            assert_eq!(blob.glyphs[0].id, 'a' as u32);
        }
        _ => panic!("expected a text node"),
    }
}

#[test]
fn text_uses_fallbacks_for_size_and_fill() {
    let mut res = pool();
    let out = text(String::from("a")).resolve(&mut res).unwrap().unwrap();
    match out {
        ResolvedNode::Text { size, fill, rect, .. } => {
            // Fallback size 12: advance 6 per character.
            assert_eq!(size, 12);
            assert_eq!(rect.size.width, 6);
            assert_eq!(fill, Paint::Solid(rgb(255, 255, 255)));
        }
        _ => panic!("expected a text node"),
    }
}

#[test]
fn empty_text_has_no_blob_and_zero_bounds() {
    let mut res = pool();
    let out = text(String::new()).resolve(&mut res).unwrap().unwrap();
    match out {
        ResolvedNode::Text { blob, rect, .. } => {
            assert!(blob.is_none());
            assert_eq!(rect.size, size2(0, 0));
        }
        _ => panic!("expected a text node"),
    }
}

#[test]
fn unknown_font_is_an_error() {
    let mut res = pool();
    let node = styled_text(String::from("x"), String::from("serif"), Some(10), None);
    let err = node.resolve(&mut res).unwrap_err();
    assert_eq!(err, Error::InvalidFont(String::from("serif")));
    assert_eq!(err.message(), "no such font found in resources");
}

#[test]
fn interact_with_null_child_is_an_error() {
    let mut res = pool();
    let node = interact(null(), CallbackId::new(1), Identity::new(1), false);
    assert_eq!(node.resolve(&mut res).unwrap_err(), Error::EmptyNode);
    let node = capture(null(), CallbackId::new(2));
    assert_eq!(node.resolve(&mut res).unwrap_err(), Error::EmptyNode);
}

#[test]
fn resolving_unchanged_text_twice_is_identical() {
    // The second resolution hits the shaping cache and returns identical
    // shaped output and identical measured bounds.
    let mut res = pool();
    let make = || styled_text(String::from("hello"), String::from("sans-serif"), Some(10), None);
    let first = make().resolve(&mut res).unwrap().unwrap();
    let second = make().resolve(&mut res).unwrap().unwrap();
    match (first, second) {
        (
            ResolvedNode::Text { blob: b1, rect: r1, .. },
            ResolvedNode::Text { blob: b2, rect: r2, .. },
        ) => {
            assert_eq!(b1.unwrap(), b2.unwrap());
            assert_eq!(r1, r2);
        }
        _ => panic!("expected text nodes"),
    }
}

#[test]
fn fonts_can_be_listed_and_replaced() {
    let mut res = pool();
    assert!(res.has_font("sans-serif"));
    assert!(!res.has_font("mono"));
    assert_eq!(res.font("sans-serif").unwrap().advance, 500);
    // Re-binding a name shadows the old metrics.
    res.add_font(
        String::from("sans-serif"),
        FontMetrics { advance: 1000, line_height: 1000 },
    );
    assert_eq!(res.font("sans-serif").unwrap().advance, 1000);
    let out = styled_text(String::from("ab"), String::from("sans-serif"), Some(10), None)
        .resolve(&mut res)
        .unwrap()
        .unwrap();
    match out {
        ResolvedNode::Text { rect, .. } => assert_eq!(rect.size.width, 20),
        _ => panic!("expected a text node"),
    }
}

#[test]
fn layout_resolution_sizes_itself_and_drops_absent_children() {
    let mut res = pool();
    let node = row()
        .spacing(5)
        .child(plain_rect(10, 10))
        .child(null())
        .child(plain_rect(10, 10))
        .child(plain_rect(10, 10))
        .into_node();
    let out = node.resolve(&mut res).unwrap().unwrap();
    match out {
        ResolvedNode::Layout { children, rect, .. } => {
            // The absent child is dropped; three remain.
            assert_eq!(children.len(), 3);
            assert_eq!(rect.size, size2(40, 10));
            assert_eq!(rect.origin.x, 0);
            assert_eq!(rect.origin.y, 0);
        }
        _ => panic!("expected a layout node"),
    }
}

#[test]
fn interact_wraps_child_size() {
    let mut res = pool();
    let node = interact(plain_rect(30, 20), CallbackId::new(9), Identity::new(4), false);
    let out = node.resolve(&mut res).unwrap().unwrap();
    match out {
        ResolvedNode::Interact { rect, id, passthrough, child, .. } => {
            assert_eq!(rect.size, size2(30, 20));
            assert_eq!(id, Identity::new(4));
            assert!(!passthrough);
            assert!(matches!(*child, ResolvedNode::Rectangle { .. }));
        }
        _ => panic!("expected an interact node"),
    }
}

#[test]
fn embedded_resolved_subtree_is_final() {
    let mut res = pool();
    let inner = plain_rect(5, 5).resolve(&mut res).unwrap().unwrap();
    let out = Node::Resolved(inner).resolve(&mut res).unwrap().unwrap();
    assert!(matches!(out, ResolvedNode::Rectangle { .. }));
}
