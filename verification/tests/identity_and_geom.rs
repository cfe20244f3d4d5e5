use cape::geom::{point2, rect, size2, Frac, Rect, Sides2};
use cape::identity::{context, Identity};

#[test]
fn identity_same_site_and_key_is_equal() {
    let a = Identity::keyed(7, 3);
    let b = Identity::keyed(7, 3);
    assert_eq!(a, b);
}

#[test]
fn identity_differing_keys_differ() {
    let a = Identity::keyed(7, 3);
    let b = Identity::keyed(7, 4);
    assert_ne!(a, b);
}

#[test]
fn identity_new_uses_zero_key() {
    assert_eq!(Identity::new(9), Identity::keyed(9, 0));
}

#[test]
fn context_rekeys_the_site() {
    let base = Identity::new(11);
    let item0 = context(base, 0);
    let item1 = context(base, 1);
    assert_eq!(item0, Identity::keyed(11, 0));
    assert_eq!(item1, Identity::keyed(11, 1));
    assert_ne!(item0, item1);
    // Rebuilding in another frame gives the same identities.
    assert_eq!(context(Identity::new(11), 1), item1);
}

#[test]
fn rect_intersections() {
    let a = rect(0, 0, 10, 10);
    let b = rect(5, 5, 10, 10);
    let c = rect(10, 0, 5, 5);
    assert!(a.intersects(&b));
    assert!(b.intersects(&a));
    // Touching edges do not overlap in positive area.
    assert!(!a.intersects(&c));
    let far = rect(20, 20, 5, 5);
    assert!(!a.intersects(&far));
}

#[test]
fn rect_contains_is_half_open() {
    let a = rect(0, 0, 10, 10);
    assert!(a.contains(point2(0, 0)));
    assert!(a.contains(point2(9, 9)));
    assert!(!a.contains(point2(10, 0)));
    assert!(!a.contains(point2(0, 10)));
    assert!(!a.contains(point2(-1, 5)));
}

#[test]
fn rect_inflate_and_inner() {
    let a = rect(10, 10, 20, 20);
    let big = a.inflate(5, 5);
    assert_eq!(big, rect(5, 5, 30, 30));
    let inner = a.inner_rect(Sides2::new(1, 2, 3, 4));
    // Sides are (top, right, bottom, left).
    assert_eq!(inner, rect(14, 11, 14, 16));
}

#[test]
fn frac_scales_exactly() {
    assert_eq!(Frac::half().scale(100), 50);
    assert_eq!(Frac::half().scale(20), 10);
    assert_eq!(Frac::one().scale(73), 73);
    assert_eq!(Frac::zero().scale(73), 0);
    // Thousandths round down.
    assert_eq!(Frac::new(333).scale(10), 3);
}

#[test]
fn rect_accessors() {
    let r = Rect::new(point2(1, 2), size2(3, 4));
    assert_eq!(r.origin.x, 1);
    assert_eq!(r.origin.y, 2);
    assert_eq!(r.size.width, 3);
    assert_eq!(r.size.height, 4);
}
