use cape::builder::{row, stack};
use cape::geom::{rect, size2, Rect};
use cape::node::{rectangle, z_order, CornerRadii, Node, ResolvedNode};
use cape::paint::{rgb, Paint, ZOrder};
use cape::text::Resources;

fn pool() -> Resources {
    Resources::new(12, Paint::Solid(rgb(0, 0, 0)))
}

fn plain_rect(w: i64, h: i64) -> Node {
    rectangle(size2(w, h), CornerRadii::uniform(0), None, 0, None)
}

fn tagged_rect(w: i64, h: i64, tag: u8) -> Node {
    // The border width doubles as a recognizable tag in flattened output.
    rectangle(size2(w, h), CornerRadii::uniform(0), None, tag as i64, None)
}

fn resolve(node: Node) -> ResolvedNode {
    let mut res = pool();
    node.resolve(&mut res).unwrap().unwrap()
}

#[test]
fn perform_layout_positions_row_children_absolutely() {
    let node = row()
        .spacing(5)
        .child(plain_rect(10, 10))
        .child(plain_rect(10, 10))
        .child(plain_rect(10, 10))
        .into_node();
    let mut tree = resolve(node);
    tree.set_rect(rect(100, 50, 40, 10));
    tree.perform_layout();
    match tree {
        ResolvedNode::Layout { children, rect: own, .. } => {
            assert_eq!(own, rect(100, 50, 40, 10));
            assert_eq!(children[0].rect(), rect(100, 50, 10, 10));
            assert_eq!(children[1].rect(), rect(115, 50, 10, 10));
            assert_eq!(children[2].rect(), rect(130, 50, 10, 10));
        }
        _ => panic!("expected a layout node"),
    }
}

#[test]
fn perform_layout_centers_stack_child() {
    let node = stack()
        .width(Some(100))
        .height(Some(100))
        .child_item(plain_rect(20, 20), cape::layout::StackItem::center())
        .into_node();
    let mut tree = resolve(node);
    tree.perform_layout();
    match tree {
        ResolvedNode::Layout { children, .. } => {
            assert_eq!(children[0].rect(), rect(40, 40, 20, 20));
        }
        _ => panic!("expected a layout node"),
    }
}

fn flat_tags(list: &[ResolvedNode]) -> Vec<i64> {
    list.iter()
        .filter_map(|n| match n {
            ResolvedNode::Rectangle { border, .. } => Some(*border),
            _ => None,
        })
        .collect()
}

#[test]
fn flatten_orders_buckets() {
    // Three siblings tagged Below, Above (default) and Top must come out
    // as [Below, Above, Top] around their parent's own record, regardless
    // of construction order.
    let node = row()
        .child(z_order(tagged_rect(10, 10, 3), ZOrder::Top))
        .child(z_order(tagged_rect(10, 10, 1), ZOrder::Below))
        .child(tagged_rect(10, 10, 2))
        .into_node();
    let mut tree = resolve(node);
    tree.perform_layout();
    let cull = rect(-1000, -1000, 5000, 5000);
    let flat = tree.flatten(&cull);
    assert_eq!(flat_tags(&flat), vec![1, 2, 3]);
    // The parent's record sits between the Below branch and the rest.
    assert!(matches!(flat[0], ResolvedNode::Rectangle { border: 1, .. }));
    assert!(matches!(flat[1], ResolvedNode::Layout { .. }));
    assert!(matches!(flat[2], ResolvedNode::Rectangle { border: 2, .. }));
    assert!(matches!(flat[3], ResolvedNode::Rectangle { border: 3, .. }));
}

#[test]
fn flatten_bottom_bucket_precedes_everything() {
    let node = row()
        .child(tagged_rect(10, 10, 2))
        .child(z_order(tagged_rect(10, 10, 1), ZOrder::Bottom))
        .into_node();
    let mut tree = resolve(node);
    tree.perform_layout();
    let flat = tree.flatten(&rect(-100, -100, 1000, 1000));
    assert_eq!(flat_tags(&flat), vec![1, 2]);
    // The bottom-tagged child is the very first record, before the parent.
    assert!(matches!(flat[0], ResolvedNode::Rectangle { border: 1, .. }));
}

#[test]
fn flatten_culls_whole_offscreen_subtrees() {
    let node = row().child(tagged_rect(10, 10, 1)).into_node();
    let mut tree = resolve(node);
    tree.set_rect(rect(1000, 1000, 10, 10));
    tree.perform_layout();
    // The viewport is far away; nothing survives, not even the root.
    let flat = tree.flatten(&rect(0, 0, 100, 100));
    assert!(flat.is_empty());
}

#[test]
fn flatten_keeps_partially_visible_subtrees_whole() {
    let node = row()
        .child(tagged_rect(60, 10, 1))
        .child(tagged_rect(60, 10, 2))
        .into_node();
    let mut tree = resolve(node);
    tree.set_rect(rect(0, 0, 120, 10));
    tree.perform_layout();
    // Only half the container overlaps the viewport; culling is
    // all-or-nothing per subtree, so the container itself survives, and
    // each child is tested on its own rectangle (inflated by the slack).
    let flat = tree.flatten(&rect(0, 0, 50, 10));
    assert_eq!(flat_tags(&flat), vec![1]);
}

#[test]
fn flat_records_have_children_detached() {
    let node = row().child(plain_rect(10, 10)).into_node();
    let mut tree = resolve(node);
    tree.perform_layout();
    let flat = tree.flatten(&rect(-100, -100, 1000, 1000));
    for record in &flat {
        if let ResolvedNode::Layout { children, .. } = record {
            assert!(children.is_empty());
        }
    }
}

#[test]
fn capture_callbacks_observe_their_subtrees() {
    let node = cape::node::capture(plain_rect(10, 10), cape::node::CallbackId::new(77));
    let mut tree = resolve(node);
    tree.perform_layout();
    let caps = tree.capture_invocations();
    assert_eq!(caps.len(), 1);
    assert_eq!(caps[0].0, cape::node::CallbackId::new(77));
    assert!(matches!(caps[0].1, ResolvedNode::Capture { .. }));
}

#[test]
fn interact_wrapper_passes_its_rectangle_to_its_child() {
    let node = cape::node::interact(
        plain_rect(10, 10),
        cape::node::CallbackId::new(1),
        cape::identity::Identity::new(1),
        false,
    );
    let mut tree = resolve(node);
    tree.set_rect(rect(30, 40, 10, 10));
    tree.perform_layout();
    match tree {
        ResolvedNode::Interact { child, rect: own, .. } => {
            assert_eq!(own, rect(30, 40, 10, 10));
            assert_eq!(child.rect(), rect(30, 40, 10, 10));
        }
        _ => panic!("expected an interact node"),
    }
}

#[test]
fn nested_rows_lay_out_in_absolute_coordinates() {
    let inner = row().child(plain_rect(10, 10)).child(plain_rect(10, 10)).into_node();
    let node = row().child(plain_rect(5, 10)).child(inner).into_node();
    let mut tree = resolve(node);
    tree.set_rect(rect(100, 0, 25, 10));
    tree.perform_layout();
    match tree {
        ResolvedNode::Layout { children, .. } => {
            assert_eq!(children[0].rect(), rect(100, 0, 5, 10));
            assert_eq!(children[1].rect(), rect(105, 0, 20, 10));
            match &children[1] {
                ResolvedNode::Layout { children: grand, .. } => {
                    // Grandchildren are positioned root-relative, not
                    // parent-relative.
                    assert_eq!(grand[0].rect(), rect(105, 0, 10, 10));
                    assert_eq!(grand[1].rect(), rect(115, 0, 10, 10));
                }
                _ => panic!("expected a nested layout node"),
            }
        }
        _ => panic!("expected a layout node"),
    }
}

#[test]
fn window_cull_matches_viewport() {
    let cull: Rect = rect(0, 0, 900, 600);
    let node = plain_rect(10, 10);
    let mut tree = resolve(node);
    tree.perform_layout();
    let flat = tree.flatten(&cull);
    assert_eq!(flat.len(), 1);
}
