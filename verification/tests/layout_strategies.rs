use cape::builder::Row;
use cape::geom::{point2, rect, size2, Frac, FracPoint2, Sides2, Size2};
use cape::layout::{
    Align, ColumnItem, ColumnLayout, ContainerLayout, LayoutStrategy, RowItem, RowLayout,
    StackItem, StackLayout,
};

fn zero_sides() -> Sides2 {
    Sides2::new(0, 0, 0, 0)
}

fn row_of(items: Vec<RowItem>, spacing: i64) -> LayoutStrategy {
    LayoutStrategy::Row(RowLayout { items, margin: zero_sides(), spacing })
}

#[test]
fn row_width_is_sum_plus_gaps() {
    // Three children of width 10 with spacing 5: expected width 40.
    let items = vec![RowItem::default(), RowItem::default(), RowItem::default()];
    let sizes = vec![size2(10, 7), size2(10, 9), size2(10, 8)];
    let s = row_of(items, 5).size(&sizes);
    assert_eq!(s.width, 40);
    assert_eq!(s.height, 9);
}

#[test]
fn row_size_counts_item_margins_and_container_margin() {
    let item = RowItem { align: Align::Begin, margin: Sides2::new(1, 2, 3, 4), fill: false };
    let items = vec![item, item];
    let sizes = vec![size2(10, 10), size2(10, 10)];
    let strat = LayoutStrategy::Row(RowLayout {
        items,
        margin: Sides2::new_all_same(5),
        spacing: 0,
    });
    let s = strat.size(&sizes);
    // width: 2*(10 + 2 + 4) + 10 = 42; height: 10 + 1 + 3 + 10 = 24.
    assert_eq!(s.width, 42);
    assert_eq!(s.height, 24);
}

#[test]
fn row_positions_children_left_to_right() {
    let items = vec![RowItem::default(), RowItem::default(), RowItem::default()];
    let sizes = vec![size2(10, 10), size2(10, 10), size2(10, 10)];
    let strat = row_of(items, 5);
    let rects = strat.position(rect(0, 0, 40, 10), &sizes);
    assert_eq!(rects.len(), 3);
    assert_eq!(rects[0], rect(0, 0, 10, 10));
    assert_eq!(rects[1], rect(15, 0, 10, 10));
    assert_eq!(rects[2], rect(30, 0, 10, 10));
}

#[test]
fn row_fill_distributes_leftover_evenly() {
    let fill = RowItem { align: Align::Begin, margin: zero_sides(), fill: true };
    let items = vec![RowItem::default(), fill, fill];
    let sizes = vec![size2(10, 10), size2(1, 10), size2(1, 10)];
    let strat = row_of(items, 0);
    // Container is 50 wide; 10 is taken; each filling child claims 20.
    let rects = strat.position(rect(0, 0, 50, 10), &sizes);
    assert_eq!(rects[0], rect(0, 0, 10, 10));
    assert_eq!(rects[1], rect(10, 0, 20, 10));
    assert_eq!(rects[2], rect(30, 0, 20, 10));
}

#[test]
fn row_fill_share_is_zero_without_fill_items() {
    // No child fills: nothing divides by zero and widths are measured ones.
    let items = vec![RowItem::default()];
    let sizes = vec![size2(10, 10)];
    let rects = row_of(items, 0).position(rect(0, 0, 100, 10), &sizes);
    assert_eq!(rects[0], rect(0, 0, 10, 10));
}

#[test]
fn row_cross_alignment() {
    let begin = RowItem { align: Align::Begin, margin: zero_sides(), fill: false };
    let middle = RowItem { align: Align::Middle, margin: zero_sides(), fill: false };
    let end = RowItem { align: Align::End, margin: zero_sides(), fill: false };
    let stretch = RowItem { align: Align::Fill, margin: zero_sides(), fill: false };
    let items = vec![begin, middle, end, stretch];
    let sizes = vec![size2(10, 4), size2(10, 4), size2(10, 4), size2(10, 4)];
    let strat = row_of(items, 0);
    let rects = strat.position(rect(0, 0, 40, 20), &sizes);
    assert_eq!(rects[0], rect(0, 0, 10, 4));
    assert_eq!(rects[1], rect(10, 8, 10, 4));
    assert_eq!(rects[2], rect(20, 16, 10, 4));
    assert_eq!(rects[3], rect(30, 0, 10, 20));
}

#[test]
fn column_height_is_sum_plus_gaps() {
    let items = vec![ColumnItem::default(), ColumnItem::default()];
    let sizes = vec![size2(7, 10), size2(9, 10)];
    let strat = LayoutStrategy::Column(ColumnLayout { items, margin: zero_sides(), spacing: 3 });
    let s = strat.size(&sizes);
    assert_eq!(s.height, 23);
    assert_eq!(s.width, 9);
}

#[test]
fn column_positions_children_top_to_bottom() {
    let items = vec![ColumnItem::default(), ColumnItem::default()];
    let sizes = vec![size2(10, 10), size2(10, 10)];
    let strat = LayoutStrategy::Column(ColumnLayout { items, margin: zero_sides(), spacing: 2 });
    let rects = strat.position(rect(0, 0, 10, 22), &sizes);
    assert_eq!(rects[0], rect(0, 0, 10, 10));
    assert_eq!(rects[1], rect(0, 12, 10, 10));
}

#[test]
fn stack_size_is_maximum_or_override() {
    let items = vec![StackItem::default(), StackItem::default()];
    let sizes = vec![size2(10, 30), size2(20, 5)];
    let free = LayoutStrategy::Stack(StackLayout {
        items: items.clone(),
        margin: zero_sides(),
        width: None,
        height: None,
    });
    assert_eq!(free.size(&sizes), size2(20, 30));
    let fixed = LayoutStrategy::Stack(StackLayout {
        items,
        margin: zero_sides(),
        width: Some(100),
        height: Some(50),
    });
    assert_eq!(fixed.size(&sizes), size2(100, 50));
}

#[test]
fn stack_centers_a_child_with_matching_anchors() {
    // xy (0.5, 0.5), anchor (0.5, 0.5), child 20x20 in a 100x100 parent
    // lands at (40, 40).
    let items = vec![StackItem::center()];
    let sizes = vec![size2(20, 20)];
    let strat = LayoutStrategy::Stack(StackLayout {
        items,
        margin: zero_sides(),
        width: None,
        height: None,
    });
    let rects = strat.position(rect(0, 0, 100, 100), &sizes);
    assert_eq!(rects[0], rect(40, 40, 20, 20));
}

#[test]
fn stack_item_fractional_size_and_offsets() {
    let item = StackItem {
        xy: FracPoint2::new(Frac::zero(), Frac::zero()),
        xy_offset: point2(3, 4),
        xy_anchor: FracPoint2::new(Frac::zero(), Frac::zero()),
        width: Some(Frac::half()),
        height: Some(Frac::new(250)),
        wh_offset: Some(Size2 { width: 2, height: -1 }),
    };
    let strat = LayoutStrategy::Stack(StackLayout {
        items: vec![item],
        margin: zero_sides(),
        width: None,
        height: None,
    });
    let rects = strat.position(rect(0, 0, 100, 100), &vec![size2(10, 10)]);
    // width: 50 + 2; height: 25 - 1; origin: (0 + 3, 0 + 4).
    assert_eq!(rects[0], rect(3, 4, 52, 24));
}

#[test]
fn container_insets_its_single_child() {
    let strat = LayoutStrategy::Container(ContainerLayout { margin: Sides2::new_all_same(4) });
    let sizes = vec![size2(10, 10)];
    assert_eq!(strat.size(&sizes), size2(18, 18));
    let rects = strat.position(rect(0, 0, 18, 18), &sizes);
    assert_eq!(rects.len(), 1);
    assert_eq!(rects[0], rect(4, 4, 10, 10));
}

#[test]
fn container_with_no_child_is_just_margin() {
    let strat = LayoutStrategy::Container(ContainerLayout { margin: Sides2::new_all_same(4) });
    let sizes: Vec<Size2> = Vec::new();
    assert_eq!(strat.size(&sizes), size2(8, 8));
    assert_eq!(strat.position(rect(0, 0, 8, 8), &sizes).len(), 0);
}

#[test]
fn builders_collect_children_and_items() {
    let n = Row::new().spacing(5).into_node();
    match n {
        cape::node::Node::Layout { layout: LayoutStrategy::Row(l), children, .. } => {
            assert_eq!(l.spacing, 5);
            assert_eq!(children.len(), 0);
        }
        _ => panic!("expected a row layout node"),
    }
    let n = cape::builder::Column::new().into_node();
    assert!(matches!(
        n,
        cape::node::Node::Layout { layout: LayoutStrategy::Column(_), .. }
    ));
    let n = cape::builder::Stack::new().width(Some(10)).into_node();
    assert!(matches!(
        n,
        cape::node::Node::Layout { layout: LayoutStrategy::Stack(_), .. }
    ));
    let n = cape::builder::Container::new().margin(Sides2::new_all_same(1)).into_node();
    assert!(matches!(
        n,
        cape::node::Node::Layout { layout: LayoutStrategy::Container(_), .. }
    ));
}
