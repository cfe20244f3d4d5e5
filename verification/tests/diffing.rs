use cape::builder::row;
use cape::diff::{compare_interact, diff_resolve, try_set_callback, InteractNode};
use cape::geom::{rect, size2};
use cape::identity::Identity;
use cape::node::{
    interact, rectangle, styled_text, CallbackId, CornerRadii, Node, ResolvedNode,
};
use cape::paint::{rgb, Paint};
use cape::text::{FontMetrics, Resources};

fn pool() -> Resources {
    let mut res = Resources::new(12, Paint::Solid(rgb(255, 255, 255)));
    res.add_font(
        String::from("sans-serif"),
        FontMetrics { advance: 500, line_height: 1200 },
    );
    res
}

fn plain_rect(w: i64, h: i64) -> Node {
    rectangle(size2(w, h), CornerRadii::uniform(0), None, 0, None)
}

fn a_text(s: &str) -> Node {
    styled_text(String::from(s), String::from("sans-serif"), Some(10), None)
}

fn wide_cull() -> cape::geom::Rect {
    rect(-1000, -1000, 5000, 5000)
}

#[test]
fn unchanged_text_reuses_the_shaped_blob() {
    let mut res = pool();
    let old = a_text("hello").resolve(&mut res).unwrap().unwrap();
    let old_blob = match &old {
        ResolvedNode::Text { blob, .. } => blob.clone().unwrap(),
        _ => panic!("expected text"),
    };
    let (mut h, mut p, mut f) = (None, None, None);
    let merged = diff_resolve(&mut res, a_text("hello"), old, &wide_cull(), &mut h, &mut p, &mut f);
    match merged {
        ResolvedNode::Text { blob, .. } => assert_eq!(blob.unwrap(), old_blob),
        _ => panic!("expected text"),
    }
}

#[test]
fn changed_text_is_reshaped() {
    let mut res = pool();
    let old = a_text("hi").resolve(&mut res).unwrap().unwrap();
    let (mut h, mut p, mut f) = (None, None, None);
    let merged = diff_resolve(&mut res, a_text("hello"), old, &wide_cull(), &mut h, &mut p, &mut f);
    match merged {
        ResolvedNode::Text { blob, rect: r, .. } => {
            assert_eq!(blob.unwrap().glyphs.len(), 5);
            assert_eq!(r.size.width, 25);
        }
        _ => panic!("expected text"),
    }
}

#[test]
fn offscreen_layout_subtree_short_circuits_to_null() {
    let mut res = pool();
    let node = row().child(a_text("expensive")).into_node();
    let mut old = node.resolve(&mut res).unwrap().unwrap();
    old.set_rect(rect(2000, 2000, 100, 10));
    // The new tree references a font nobody loaded: if the diff descended
    // and re-resolved, it would fail, so returning Null proves the
    // short-circuit never touched the children.
    let unresolvable = row()
        .child(styled_text(String::from("x"), String::from("missing"), Some(10), None))
        .into_node();
    let cull = rect(0, 0, 100, 100);
    let (mut h, mut p, mut f) = (None, None, None);
    let merged = diff_resolve(&mut res, unresolvable, old, &cull, &mut h, &mut p, &mut f);
    assert!(matches!(merged, ResolvedNode::Null));
}

#[test]
fn matched_interact_rebinds_live_trackers() {
    let mut res = pool();
    let id = Identity::new(42);
    let old_node = interact(plain_rect(10, 10), CallbackId::new(1), id, false);
    let old = old_node.resolve(&mut res).unwrap().unwrap();
    // The trackers currently point at last frame's callback.
    let mut hovered = Some(InteractNode { callback: CallbackId::new(1), id });
    let mut pressed = None;
    let mut focused = Some(InteractNode { callback: CallbackId::new(1), id: Identity::new(7) });
    let fresh = interact(plain_rect(10, 10), CallbackId::new(2), id, false);
    let merged =
        diff_resolve(&mut res, fresh, old, &wide_cull(), &mut hovered, &mut pressed, &mut focused);
    assert!(matches!(merged, ResolvedNode::Interact { .. }));
    // The hover tracker joins on identity and takes the new callback.
    assert_eq!(hovered.unwrap().callback, CallbackId::new(2));
    // A tracker on another identity is untouched.
    assert_eq!(focused.unwrap().callback, CallbackId::new(1));
    assert!(pressed.is_none());
}

#[test]
fn shrunken_child_list_is_truncated() {
    let mut res = pool();
    let old = row()
        .child(plain_rect(10, 10))
        .child(plain_rect(10, 10))
        .into_node()
        .resolve(&mut res)
        .unwrap()
        .unwrap();
    let fresh = row().child(plain_rect(20, 10)).into_node();
    let (mut h, mut p, mut f) = (None, None, None);
    let merged = diff_resolve(&mut res, fresh, old, &wide_cull(), &mut h, &mut p, &mut f);
    match merged {
        ResolvedNode::Layout { children, rect: r, .. } => {
            assert_eq!(children.len(), 1);
            assert_eq!(r.size, size2(20, 10));
        }
        _ => panic!("expected a layout node"),
    }
}

#[test]
fn grown_child_list_is_padded_and_resolved() {
    let mut res = pool();
    let old = row().child(plain_rect(10, 10)).into_node().resolve(&mut res).unwrap().unwrap();
    let fresh = row().child(plain_rect(10, 10)).child(plain_rect(30, 10)).into_node();
    let (mut h, mut p, mut f) = (None, None, None);
    let merged = diff_resolve(&mut res, fresh, old, &wide_cull(), &mut h, &mut p, &mut f);
    match merged {
        ResolvedNode::Layout { children, rect: r, .. } => {
            assert_eq!(children.len(), 2);
            assert_eq!(r.size, size2(40, 10));
        }
        _ => panic!("expected a layout node"),
    }
}

#[test]
fn unmatched_pairing_resolves_from_scratch() {
    let mut res = pool();
    let old = a_text("hi").resolve(&mut res).unwrap().unwrap();
    let (mut h, mut p, mut f) = (None, None, None);
    let merged = diff_resolve(&mut res, plain_rect(9, 9), old, &wide_cull(), &mut h, &mut p, &mut f);
    match merged {
        ResolvedNode::Rectangle { rect: r, .. } => assert_eq!(r.size, size2(9, 9)),
        _ => panic!("expected a rectangle"),
    }
}

#[test]
fn tracker_comparison_and_rebinding_are_by_identity() {
    let a = Some(InteractNode { callback: CallbackId::new(1), id: Identity::new(5) });
    let b = Some(InteractNode { callback: CallbackId::new(9), id: Identity::new(5) });
    let c = Some(InteractNode { callback: CallbackId::new(1), id: Identity::new(6) });
    assert!(compare_interact(&a, &b));
    assert!(!compare_interact(&a, &c));
    assert!(!compare_interact(&a, &None));
    assert!(compare_interact(&None, &None));
    let mut tr = a;
    try_set_callback(&mut tr, CallbackId::new(3), Identity::new(5));
    assert_eq!(tr.unwrap().callback, CallbackId::new(3));
    let mut tr = c;
    try_set_callback(&mut tr, CallbackId::new(3), Identity::new(5));
    assert_eq!(tr.unwrap().callback, CallbackId::new(1));
}
