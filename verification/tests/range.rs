use axgeom::Range;
use std::cmp::Ordering;

fn range(left: i32, right: i32) -> Range<i32> {
    Range { left, right }
}

#[test]
fn contains_is_closed_on_both_ends() {
    let r = range(0, 10);
    assert!(r.contains(0));
    assert!(r.contains(10));
    assert!(r.contains(5));
    assert!(!r.contains(11));
    assert!(!r.contains(-1));
}

#[test]
fn contains_on_a_single_point() {
    let r = range(4, 4);
    assert!(r.contains(4));
    assert!(!r.contains(3));
    assert!(!r.contains(5));
}

#[test]
fn len_is_right_minus_left() {
    assert_eq!(range(-3, 10).len(), 13);
    assert_eq!(range(4, 4).len(), 0);
    assert_eq!(Range { left: -5i64, right: 5i64 }.len(), 10);
}

#[test]
fn grow_moves_both_endpoints_outward() {
    let mut r = range(0, 10);
    r.grow(3);
    assert_eq!(r, range(-3, 13));
}

#[test]
fn grow_hands_the_range_back() {
    let mut r = range(0, 10);
    r.grow(1).grow(2);
    assert_eq!(r, range(-3, 13));
}

#[test]
fn side_of_a_point() {
    let r = range(0, 10);
    assert_eq!(r.left_or_right_or_contain(&-1), Ordering::Less);
    assert_eq!(r.left_or_right_or_contain(&0), Ordering::Equal);
    assert_eq!(r.left_or_right_or_contain(&7), Ordering::Equal);
    assert_eq!(r.left_or_right_or_contain(&10), Ordering::Equal);
    assert_eq!(r.left_or_right_or_contain(&11), Ordering::Greater);
}

#[test]
fn grow_to_fit_only_moves_outward() {
    let mut r = range(0, 10);
    r.grow_to_fit(&range(-5, 3));
    assert_eq!(r, range(-5, 10));
    r.grow_to_fit(&range(2, 30));
    assert_eq!(r, range(-5, 30));
    r.grow_to_fit(&range(-50, 50));
    assert_eq!(r, range(-50, 50));
}

#[test]
fn grow_to_fit_a_contained_range_changes_nothing() {
    let a = range(0, 10);
    for b in [range(0, 10), range(3, 4), range(0, 0), range(10, 10)] {
        assert!(a.contains_range(&b));
        let mut grown = a;
        grown.grow_to_fit(&b);
        assert_eq!(grown, a);
    }
}

#[test]
fn contains_range_needs_both_endpoints() {
    let a = range(0, 10);
    assert!(a.contains_range(&range(0, 10)));
    assert!(a.contains_range(&range(2, 3)));
    assert!(!a.contains_range(&range(-1, 3)));
    assert!(!a.contains_range(&range(2, 11)));
    assert!(!a.contains_range(&range(-1, 11)));
}

#[test]
fn intersection_of_overlapping_ranges() {
    assert_eq!(range(0, 10).get_intersection(&range(5, 20)), Some(range(5, 10)));
    assert_eq!(range(5, 20).get_intersection(&range(0, 10)), Some(range(5, 10)));
    assert_eq!(range(0, 10).get_intersection(&range(-5, 20)), Some(range(0, 10)));
}

#[test]
fn intersection_of_touching_ranges_is_a_point() {
    assert_eq!(range(0, 10).get_intersection(&range(10, 20)), Some(range(10, 10)));
}

#[test]
fn intersection_of_disjoint_ranges_is_none() {
    assert_eq!(range(0, 10).get_intersection(&range(11, 20)), None);
    assert_eq!(range(11, 20).get_intersection(&range(0, 10)), None);
}

#[test]
fn intersection_of_a_contained_range_is_that_range() {
    let a = range(0, 10);
    for b in [range(0, 10), range(3, 4), range(0, 0), range(10, 10), range(2, 9)] {
        assert!(a.contains_range(&b));
        assert_eq!(a.get_intersection(&b), Some(b));
    }
}

#[test]
fn intersection_lies_in_both_ranges() {
    let ranges = [range(0, 10), range(-4, 3), range(3, 3), range(8, 30), range(-9, -2)];
    for a in ranges {
        for b in ranges {
            if let Some(c) = a.get_intersection(&b) {
                assert_eq!(c.left, a.left.max(b.left));
                assert_eq!(c.right, a.right.min(b.right));
                assert!(c.left <= c.right);
                assert!(a.contains_range(&c));
                assert!(b.contains_range(&c));
            }
        }
    }
}

#[test]
fn intersects_on_overlap_touch_and_gap() {
    assert!(range(0, 10).intersects(&range(5, 20)));
    assert!(range(5, 20).intersects(&range(0, 10)));
    assert!(range(0, 10).intersects(&range(10, 20)));
    assert!(range(0, 10).intersects(&range(2, 3)));
    assert!(range(2, 3).intersects(&range(0, 10)));
    assert!(!range(0, 10).intersects(&range(11, 20)));
    assert!(!range(11, 20).intersects(&range(0, 10)));
}

#[test]
fn intersects_agrees_with_intersection() {
    let ranges = [range(0, 10), range(-4, 3), range(3, 3), range(8, 30), range(-9, -2)];
    for a in ranges {
        for b in ranges {
            assert_eq!(a.intersects(&b), a.get_intersection(&b).is_some());
            assert_eq!(a.intersects(&b), a.contains(b.left) || b.contains(a.left));
        }
    }
}

#[test]
fn difference_to_point_is_signed() {
    let r = range(0, 10);
    assert_eq!(r.difference_to_point(-5), Some(-5));
    assert_eq!(r.difference_to_point(14), Some(4));
    assert_eq!(r.difference_to_point(0), None);
    assert_eq!(r.difference_to_point(10), None);
    assert_eq!(r.difference_to_point(6), None);
}
