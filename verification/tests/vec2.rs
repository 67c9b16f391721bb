use axgeom::arr2_as;
use axgeom::vec2;
use axgeom::vec2same;
use axgeom::Axis;
use axgeom::Vec2;

/// A byte that remembers, when a conversion to it fails, what could not be
/// converted.
#[derive(Debug, PartialEq)]
struct Small(u8);

impl TryFrom<i32> for Small {
    type Error = i32;

    fn try_from(v: i32) -> Result<Small, i32> {
        match u8::try_from(v) {
            Ok(byte) => Ok(Small(byte)),
            Err(_) => Err(v),
        }
    }
}

/// A wrapped integer that every 32-bit integer converts to.
#[derive(Debug, PartialEq)]
struct Wide(i64);

impl From<i32> for Wide {
    fn from(v: i32) -> Wide {
        Wide(v as i64 * 2)
    }
}

#[test]
fn constructors() {
    assert_eq!(vec2(1, 2), Vec2 { x: 1, y: 2 });
    assert_eq!(vec2same(7), Vec2 { x: 7, y: 7 });
}

#[test]
fn add_and_sub_are_component_wise() {
    assert_eq!(vec2(1i32, 2) + vec2(10, 20), vec2(11, 22));
    assert_eq!(vec2(1i32, 2) - vec2(10, 20), vec2(-9, -18));
    assert_eq!(vec2(1i64, 2) + vec2(10, 20), vec2(11, 22));
}

#[test]
fn mul_and_div_by_a_scalar() {
    assert_eq!(vec2(3i32, -4) * 5, vec2(15, -20));
    assert_eq!(vec2(15i32, -20) / 5, vec2(3, -4));
}

#[test]
fn div_rounds_toward_zero() {
    assert_eq!(vec2(7i32, -7) / 2, vec2(3, -3));
    assert_eq!(vec2(7i32, -7) / -2, vec2(-3, 3));
    assert_eq!(vec2(1i64, -1) / 3, vec2(0, 0));
}

#[test]
fn neg_negates_both_components() {
    assert_eq!(-vec2(3i32, -4), vec2(-3, 4));
    assert_eq!(-vec2(0i64, 0), vec2(0, 0));
}

#[test]
fn assigning_operators() {
    let mut v = vec2(1i32, 2);
    v += vec2(10, 20);
    assert_eq!(v, vec2(11, 22));
    v -= vec2(1, 1);
    assert_eq!(v, vec2(10, 21));
    v *= 3;
    assert_eq!(v, vec2(30, 63));
    v /= 4;
    assert_eq!(v, vec2(7, 15));
}

#[test]
fn a_vector_and_its_negation_add_up_to_zero() {
    for v in [vec2(0i32, 0), vec2(3, -4), vec2(-100, 7), vec2(i32::MAX, -i32::MAX)] {
        assert_eq!(v + (-v), Vec2::zero());
    }
}

#[test]
fn mul_then_div_by_the_same_scalar_gives_the_vector_back() {
    for v in [vec2(0i32, 0), vec2(3, -4), vec2(-100, 7)] {
        for k in [1, -1, 2, -3, 1000] {
            assert_eq!((v * k) / k, v);
        }
    }
}

#[test]
fn dot_and_magnitude2() {
    assert_eq!(vec2(3i32, 4).dot(vec2(-2, 5)), 14);
    assert_eq!(vec2(3i32, 4).magnitude2(), 25);
    assert_eq!(vec2(-3i64, -4).magnitude2(), 25);
    assert_eq!(vec2(0i32, 0).magnitude2(), 0);
}

#[test]
fn zero_and_is_zero() {
    assert_eq!(Vec2::<i32>::zero(), vec2(0, 0));
    assert_eq!(Vec2::<i64>::zero(), vec2(0, 0));
    assert!(vec2(0i32, 0).is_zero());
    assert!(!vec2(0i32, 1).is_zero());
    assert!(!vec2(1i32, 0).is_zero());
}

#[test]
fn get_axis_reads_one_component() {
    let v = vec2(3, 4);
    assert_eq!(*v.get_axis(Axis::X), 3);
    assert_eq!(*v.get_axis(Axis::Y), 4);
}

#[test]
fn get_axis_mut_changes_one_component() {
    let mut v = vec2(3, 4);
    *v.get_axis_mut(Axis::X) = 30;
    assert_eq!(v, vec2(30, 4));
    *v.get_axis_mut(Axis::Y) += 1;
    assert_eq!(v, vec2(30, 5));
}

#[test]
fn the_other_axis() {
    assert_eq!(Axis::X.other(), Axis::Y);
    assert_eq!(Axis::Y.other(), Axis::X);
}

#[test]
fn inner_into_widens() {
    let v: Vec2<i64> = vec2(i32::MIN, i32::MAX).inner_into();
    assert_eq!(v, vec2(-2147483648i64, 2147483647i64));
}

#[test]
fn inner_try_into_narrows_what_fits() {
    let v = vec2(-7i64, 2147483647i64).inner_try_into::<i32>();
    assert_eq!(v.ok(), Some(vec2(-7i32, i32::MAX)));
}

#[test]
fn inner_try_into_fails_on_either_component() {
    assert!(vec2(2147483648i64, 0).inner_try_into::<i32>().is_err());
    assert!(vec2(0, -2147483649i64).inner_try_into::<i32>().is_err());
    assert!(vec2(-1i32, 5).inner_try_into::<u8>().is_err());
    assert!(vec2(5i32, -1).inner_try_into::<u8>().is_err());
    assert!(vec2(-1i32, -1).inner_try_into::<u8>().is_err());
}

#[test]
fn inner_try_into_reports_the_first_failure() {
    assert_eq!(vec2(300, 400).inner_try_into::<Small>(), Err(300));
    assert_eq!(vec2(3, 400).inner_try_into::<Small>(), Err(400));
    assert_eq!(vec2(-1, 4).inner_try_into::<Small>(), Err(-1));
    assert_eq!(vec2(3, 4).inner_try_into::<Small>(), Ok(vec2(Small(3), Small(4))));
}

#[test]
fn inner_into_uses_the_conversion_of_the_target() {
    assert_eq!(vec2(3, -4).inner_into::<Wide>(), vec2(Wide(6), Wide(-8)));
}

#[test]
fn widening_and_narrowing_back_recovers_the_vector() {
    for v in [vec2(0i32, 0), vec2(i32::MIN, i32::MAX), vec2(-3, 4)] {
        let wide: Vec2<i64> = v.inner_into();
        assert_eq!(wide.inner_try_into::<i32>().ok(), Some(v));
        assert_eq!(v.inner_as::<i64>().inner_as::<i32>(), v);
    }
}

#[test]
fn converting_to_floats_is_exact() {
    let v = vec2(-3i32, 16777217);
    let f: Vec2<f64> = v.inner_into();
    assert_eq!(f, vec2(-3.0, 16777217.0));
    assert_eq!(vec2(f.x as i32, f.y as i32), v);
}

#[test]
fn inner_as_keeps_the_low_bits() {
    assert_eq!(vec2(7i64, -9).inner_as::<i32>(), vec2(7i32, -9));
    assert_eq!(vec2(0x1_0000_0005i64, -0x1_0000_0000).inner_as::<i32>(), vec2(5i32, 0));
    assert_eq!(vec2(0x8000_0000i64, 0xffff_ffff).inner_as::<i32>(), vec2(i32::MIN, -1));
    assert_eq!(vec2(-5i32, 6).inner_as::<i64>(), vec2(-5i64, 6));
}

#[test]
fn arr2_as_casts_each_element() {
    let a: [i32; 2] = arr2_as([0x1_0000_0005i64, -9]);
    assert_eq!(a, [5, -9]);
    let b: [i64; 2] = arr2_as([i32::MIN, 3]);
    assert_eq!(b, [-2147483648, 3]);
}
