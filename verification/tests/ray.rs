use axgeom::cast_to_range;
use axgeom::vec2;
use axgeom::Axis;
use axgeom::CastResult;
use axgeom::Range;
use axgeom::Ray;
use axgeom::Rect;
use std::cmp::Ordering;

/// A byte that remembers, when a conversion to it fails, what could not be
/// converted.
#[derive(Debug, PartialEq)]
struct Small(u8);

impl TryFrom<i32> for Small {
    type Error = i32;

    fn try_from(v: i32) -> Result<Small, i32> {
        match u8::try_from(v) {
            Ok(byte) => Ok(Small(byte)),
            Err(_) => Err(v),
        }
    }
}

fn square() -> Rect<i32> {
    Rect { x: Range { left: 0, right: 10 }, y: Range { left: 0, right: 10 } }
}

fn ray(px: i32, py: i32, dx: i32, dy: i32) -> Ray<i32> {
    Ray { point: vec2(px, py), dir: vec2(dx, dy) }
}

#[test]
fn point_at_tval_walks_along_the_ray() {
    let r = ray(-5, 1, 1, 3);
    assert_eq!(r.point_at_tval(0), vec2(-5, 1));
    assert_eq!(r.point_at_tval(3), vec2(-2, 10));
    assert_eq!(r.point_at_tval(-2), vec2(-7, -5));
}

#[test]
fn range_side_projects_the_origin() {
    let r = ray(-5, 15, 1, 0);
    let range = Range { left: 0, right: 10 };
    assert_eq!(r.range_side(Axis::X, &range), Ordering::Less);
    assert_eq!(r.range_side(Axis::Y, &range), Ordering::Greater);
    assert_eq!(ray(10, 0, 1, 0).range_side(Axis::X, &range), Ordering::Equal);
    assert_eq!(ray(10, 0, 1, 0).range_side(Axis::Y, &range), Ordering::Equal);
}

#[test]
fn rect_contains_its_boundary() {
    let rect = square();
    assert!(rect.contains_point(vec2(0, 0)));
    assert!(rect.contains_point(vec2(10, 10)));
    assert!(rect.contains_point(vec2(5, 10)));
    assert!(!rect.contains_point(vec2(5, 11)));
    assert!(!rect.contains_point(vec2(-1, 5)));
    assert_eq!(*rect.get_range(Axis::X), rect.x);
    assert_eq!(*rect.get_range(Axis::Y), rect.y);
}

#[test]
fn horizontal_ray_from_the_left_hits_at_its_distance() {
    assert_eq!(ray(-5, 5, 1, 0).cast_to_rect(&square()), CastResult::Hit(5));
}

#[test]
fn horizontal_ray_from_within_is_inside() {
    assert_eq!(ray(5, 5, 1, 0).cast_to_rect(&square()), CastResult::Inside);
}

#[test]
fn horizontal_ray_above_the_rect_misses() {
    assert_eq!(ray(-5, 15, 1, 0).cast_to_rect(&square()), CastResult::NoHit);
}

#[test]
fn diagonal_ray_hits_the_corner() {
    assert_eq!(ray(-5, -5, 1, 1).cast_to_rect(&square()), CastResult::Hit(5));
}

#[test]
fn axis_parallel_ray_moving_away_misses() {
    assert_eq!(ray(-5, 5, -1, 0).cast_to_rect(&square()), CastResult::NoHit);
    assert_eq!(ray(15, 5, 1, 0).cast_to_rect(&square()), CastResult::NoHit);
    assert_eq!(ray(5, -5, 0, -1).cast_to_rect(&square()), CastResult::NoHit);
    assert_eq!(ray(5, 15, 0, 1).cast_to_rect(&square()), CastResult::NoHit);
}

#[test]
fn axis_parallel_ray_hits_at_the_distance_whatever_its_speed() {
    assert_eq!(ray(15, 5, -1, 0).cast_to_rect(&square()), CastResult::Hit(5));
    assert_eq!(ray(15, 5, -3, 0).cast_to_rect(&square()), CastResult::Hit(5));
    assert_eq!(ray(5, -7, 0, 2).cast_to_rect(&square()), CastResult::Hit(7));
    assert_eq!(ray(5, 18, 0, -4).cast_to_rect(&square()), CastResult::Hit(8));
}

#[test]
fn vertical_ray_beside_the_rect_misses() {
    assert_eq!(ray(-1, -5, 0, 1).cast_to_rect(&square()), CastResult::NoHit);
    assert_eq!(ray(11, -5, 0, 1).cast_to_rect(&square()), CastResult::NoHit);
}

#[test]
fn ray_that_stands_still() {
    assert_eq!(ray(5, 5, 0, 0).cast_to_rect(&square()), CastResult::Inside);
    assert_eq!(ray(5, 15, 0, 0).cast_to_rect(&square()), CastResult::NoHit);
    assert_eq!(ray(15, 5, 0, 0).cast_to_rect(&square()), CastResult::NoHit);
    assert_eq!(ray(15, 15, 0, 0).cast_to_rect(&square()), CastResult::NoHit);
}

#[test]
fn ray_from_the_boundary_is_inside() {
    assert_eq!(ray(0, 5, 1, 0).cast_to_rect(&square()), CastResult::Inside);
    assert_eq!(ray(0, 0, -1, -1).cast_to_rect(&square()), CastResult::Inside);
    assert_eq!(ray(10, 10, 1, 1).cast_to_rect(&square()), CastResult::Inside);
    assert_eq!(ray(10, 3, -2, 5).cast_to_rect(&square()), CastResult::Inside);
}

#[test]
fn ray_from_within_is_inside_in_every_direction() {
    for dx in -3..=3 {
        for dy in -3..=3 {
            assert_eq!(ray(4, 6, dx, dy).cast_to_rect(&square()), CastResult::Inside);
        }
    }
}

#[test]
fn inside_exactly_when_the_origin_is_in_the_rect() {
    let rect = square();
    for px in -3..=13 {
        for py in -3..=13 {
            for (dx, dy) in [(1, 0), (0, -1), (2, 3), (-1, 1), (-2, -5), (0, 0)] {
                let r = ray(px, py, dx, dy);
                let inside = r.cast_to_rect(&rect) == CastResult::Inside;
                assert_eq!(inside, rect.contains_point(r.point));
            }
        }
    }
}

#[test]
fn a_hit_lies_ahead_of_the_origin() {
    let rect = square();
    for px in -13..=23 {
        for py in -13..=23 {
            for (dx, dy) in [(1, 0), (0, -1), (2, 3), (-1, 1), (-2, -5), (3, -1)] {
                if let CastResult::Hit(t) = ray(px, py, dx, dy).cast_to_rect(&rect) {
                    assert!(t > 0);
                }
            }
        }
    }
}

#[test]
fn diagonal_ray_hits_the_nearer_side_first() {
    assert_eq!(ray(-2, 3, 1, 1).cast_to_rect(&square()), CastResult::Hit(2));
    assert_eq!(ray(3, -4, 1, 1).cast_to_rect(&square()), CastResult::Hit(4));
    assert_eq!(ray(12, 5, -1, 1).cast_to_rect(&square()), CastResult::Hit(2));
    assert_eq!(ray(5, 13, 1, -1).cast_to_rect(&square()), CastResult::Hit(3));
}

#[test]
fn diagonal_ray_that_passes_the_rect_misses() {
    assert_eq!(ray(-5, 8, 1, 1).cast_to_rect(&square()), CastResult::NoHit);
    assert_eq!(ray(-5, -5, 1, -1).cast_to_rect(&square()), CastResult::NoHit);
    assert_eq!(ray(-5, -5, -1, -1).cast_to_rect(&square()), CastResult::NoHit);
    assert_eq!(ray(20, 20, 1, 1).cast_to_rect(&square()), CastResult::NoHit);
}

#[test]
fn ray_parameter_is_rounded_toward_zero() {
    assert_eq!(ray(-5, 5, 2, 1).cast_to_rect(&square()), CastResult::Hit(2));
    assert_eq!(ray(-5, 5, 3, 1).cast_to_rect(&square()), CastResult::Hit(1));
    assert_eq!(ray(-5, 5, 6, 1).cast_to_rect(&square()), CastResult::NoHit);
}

#[test]
fn cast_works_on_64_bit_coordinates() {
    let rect = Rect {
        x: Range { left: 0i64, right: 10_000_000_000 },
        y: Range { left: 0i64, right: 10_000_000_000 },
    };
    let r = Ray { point: vec2(-5_000_000_000i64, -5_000_000_000), dir: vec2(1i64, 1) };
    assert_eq!(r.cast_to_rect(&rect), CastResult::Hit(5_000_000_000));
    let along = Ray { point: vec2(-5_000_000_000i64, 5), dir: vec2(7i64, 0) };
    assert_eq!(along.cast_to_rect(&rect), CastResult::Hit(5_000_000_000));
}

#[test]
fn cast_to_range_along_one_axis() {
    let range = Range { left: 0, right: 10 };
    assert_eq!(cast_to_range(&range, -5, 1), CastResult::Hit(5));
    assert_eq!(cast_to_range(&range, -5, 9), CastResult::Hit(5));
    assert_eq!(cast_to_range(&range, -5, -1), CastResult::NoHit);
    assert_eq!(cast_to_range(&range, -5, 0), CastResult::NoHit);
    assert_eq!(cast_to_range(&range, 17, -1), CastResult::Hit(7));
    assert_eq!(cast_to_range(&range, 17, 1), CastResult::NoHit);
    assert_eq!(cast_to_range(&range, 0, 1), CastResult::Inside);
    assert_eq!(cast_to_range(&range, 10, -1), CastResult::Inside);
    assert_eq!(cast_to_range(&range, 4, 0), CastResult::Inside);
    let wide = Range { left: 0i64, right: 10 };
    assert_eq!(cast_to_range(&wide, -5_000_000_000, 3), CastResult::Hit(5_000_000_000));
    assert_eq!(cast_to_range(&wide, 5_000_000_010, -3), CastResult::Hit(5_000_000_000));
}

#[test]
fn inner_into_converts_every_component() {
    let r: Ray<i64> = ray(-5, 1, 1, 3).inner_into();
    assert_eq!(r, Ray { point: vec2(-5i64, 1), dir: vec2(1i64, 3) });
}

#[test]
fn inner_try_into_converts_what_fits() {
    let wide = Ray { point: vec2(-5i64, 1), dir: vec2(1i64, 3) };
    assert_eq!(wide.inner_try_into::<i32>().ok(), Some(ray(-5, 1, 1, 3)));
}

#[test]
fn inner_try_into_fails_on_any_component() {
    let big = 1i64 << 40;
    for (px, py, dx, dy) in [
        (big, 0, 0, 0),
        (0, big, 0, 0),
        (0, 0, big, 0),
        (0, 0, 0, big),
        (big, 0, 0, big),
        (big, big, big, big),
    ] {
        let r = Ray { point: vec2(px, py), dir: vec2(dx, dy) };
        assert!(r.inner_try_into::<i32>().is_err());
    }
}

#[test]
fn ray_inner_try_into_reports_the_first_failure() {
    assert_eq!(ray(500, 600, 700, 800).inner_try_into::<Small>(), Err(500));
    assert_eq!(ray(5, 600, 700, 800).inner_try_into::<Small>(), Err(600));
    assert_eq!(ray(5, 6, 700, 800).inner_try_into::<Small>(), Err(700));
    assert_eq!(ray(5, 6, 7, 800).inner_try_into::<Small>(), Err(800));
    assert_eq!(ray(500, 6, 7, 800).inner_try_into::<Small>(), Err(500));
    assert_eq!(ray(5, 600, 700, 8).inner_try_into::<Small>(), Err(600));
    assert_eq!(
        ray(5, 6, 7, 8).inner_try_into::<Small>(),
        Ok(Ray { point: vec2(Small(5), Small(6)), dir: vec2(Small(7), Small(8)) })
    );
}

#[test]
fn before_a_hit_the_ray_is_outside() {
    let rect = square();
    for px in -13..=23 {
        for py in -13..=23 {
            for (dx, dy) in [(2, 3), (-1, 1), (-2, -5), (3, -1), (1, 1), (-4, 4)] {
                let r = ray(px, py, dx, dy);
                if let CastResult::Hit(hit) = r.cast_to_rect(&rect) {
                    for t in 0..hit {
                        assert!(!rect.contains_point(r.point_at_tval(t)));
                    }
                }
            }
        }
    }
}

#[test]
fn an_exact_crossing_lies_on_the_boundary() {
    let rect = square();
    for (r, at) in [
        (ray(-6, 2, 2, 1), vec2(0, 5)),
        (ray(16, 2, -3, 1), vec2(10, 4)),
        (ray(3, 14, 1, -2), vec2(5, 10)),
        (ray(3, -9, 2, 3), vec2(9, 0)),
    ] {
        match r.cast_to_rect(&rect) {
            CastResult::Hit(t) => assert_eq!(r.point_at_tval(t), at),
            other => panic!("no hit: {:?}", other),
        }
    }
}
