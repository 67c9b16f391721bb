//! Rays, and what they strike.
use crate::num::Bounded;
use crate::num::Number;
use crate::num::Ordered;
use crate::num::SignedNumber;
use crate::range::Range;
use crate::rect::Rect;
use crate::vec2::Axis;
use crate::vec2::Vec2;
use std::cmp::Ordering;
use vstd::prelude::*;
use vstd::std_specs::convert::FromSpec;
use vstd::std_specs::convert::TryFromSpec;

verus! {

/// A ray: the points `point + dir * t` for `t >= 0`. The direction need not
/// have unit length.
#[derive(Copy, Clone, Debug, PartialEq, Eq)]
#[must_use]
pub struct Ray<N> {
    pub point: Vec2<N>,
    pub dir: Vec2<N>,
}

/// Describes how a ray met a shape.
#[derive(Copy, Clone, Debug, PartialEq, Eq)]
#[must_use]
pub enum CastResult<N> {
    /// The ray strikes the shape at this ray parameter.
    Hit(N),
    /// The ray starts within the shape.
    Inside,
    /// The ray never meets the shape.
    NoHit,
}

impl<N: Ordered> View for Ray<N> {
    type V = Ray<int>;

    /// The ray of the integers that the components stand for.
    open spec fn view(&self) -> Ray<int> {
        Ray { point: self.point@, dir: self.dir@ }
    }
}

impl<N: Ordered> View for CastResult<N> {
    type V = CastResult<int>;

    /// The same outcome, with the integer that a hit's parameter stands for.
    open spec fn view(&self) -> CastResult<int> {
        match *self {
            CastResult::Hit(t) => CastResult::Hit(t.as_int()),
            CastResult::Inside => CastResult::Inside,
            CastResult::NoHit => CastResult::NoHit,
        }
    }
}

/// The endpoint of `range` that faces a ray which moves by `dir` along the
/// range's axis: the right one if it moves leftward, else the left one.
pub open spec fn facing_side(range: Range<int>, dir: int) -> int {
    if dir < 0 {
        range.right
    } else {
        range.left
    }
}

/// The ray parameter at which a ray at `pos` that moves by `dir != 0` along
/// the range's axis reaches the endpoint that faces it, rounded toward zero.
pub open spec fn crossing_tval(range: Range<int>, pos: int, dir: int) -> int {
    crate::num::trunc_div(facing_side(range, dir) - pos, dir)
}

/// How a ray that runs along one axis, from `pos` and moving by `dir`, meets
/// the range on that axis.
///
/// It starts inside if `pos` lies within the range. From the left of the
/// range it hits the left endpoint if it moves rightward, from the right of
/// the range the right endpoint if it moves leftward, each at the distance of
/// `pos` from that endpoint, whatever its speed. A ray that moves away from
/// the range, or not at all, misses.
pub open spec fn spec_cast_to_range(range: Range<int>, pos: int, dir: int) -> CastResult<int> {
    if pos < range.left {
        if dir > 0 {
            CastResult::Hit(range.left - pos)
        } else {
            CastResult::NoHit
        }
    } else if pos > range.right {
        if dir < 0 {
            CastResult::Hit(pos - range.right)
        } else {
            CastResult::NoHit
        }
    } else {
        CastResult::Inside
    }
}

impl Ray<int> {
    /// The point `point + dir * t`.
    pub open spec fn spec_point_at_tval(self, t: int) -> Vec2<int> {
        self.point.spec_add(self.dir.spec_mul(t))
    }

    /// On which side of `range` the origin lies on `axis`.
    pub open spec fn origin_side(self, axis: Axis, range: Range<int>) -> Ordering {
        range.side_of(self.point.spec_get_axis(axis))
    }

    /// The ray parameter at which the ray, whose direction is not zero on
    /// `axis`, crosses the side of the rectangle that faces it on `axis`,
    /// where that is a crossing of the rectangle at all: the parameter has to
    /// be positive, and the point reached has to lie within the rectangle's
    /// extent on the other axis.
    pub open spec fn spec_crossing(self, rect: Rect<int>, axis: Axis) -> Option<int> {
        let t = crossing_tval(
            rect.spec_get_range(axis),
            self.point.spec_get_axis(axis),
            self.dir.spec_get_axis(axis),
        );
        let other = axis.spec_other();
        if t > 0 && rect.spec_get_range(other).spec_contains(
            self.spec_point_at_tval(t).spec_get_axis(other),
        ) {
            Some(t)
        } else {
            None
        }
    }

    /// How the ray meets the rectangle.
    ///
    /// A ray that does not move on the x axis can meet the rectangle only if
    /// its origin lies within the rectangle's x extent, and then meets it as
    /// it meets the y extent along the y axis; likewise, after that, for a
    /// ray that does not move on the y axis. Any other ray hits at the
    /// nearer of its crossings on the two axes, where it has any. Where it
    /// has none it starts inside if its origin lies in the rectangle, and
    /// misses otherwise.
    pub open spec fn spec_cast_to_rect(self, rect: Rect<int>) -> CastResult<int> {
        if self.dir.x == 0 {
            if rect.x.spec_contains(self.point.x) {
                spec_cast_to_range(rect.y, self.point.y, self.dir.y)
            } else {
                CastResult::NoHit
            }
        } else if self.dir.y == 0 {
            if rect.y.spec_contains(self.point.y) {
                spec_cast_to_range(rect.x, self.point.x, self.dir.x)
            } else {
                CastResult::NoHit
            }
        } else {
            match (self.spec_crossing(rect, Axis::X), self.spec_crossing(rect, Axis::Y)) {
                (Some(x), Some(y)) => CastResult::Hit(vstd::math::min(x, y)),
                (Some(x), None) => CastResult::Hit(x),
                (None, Some(y)) => CastResult::Hit(y),
                (None, None) => if rect.spec_contains_point(self.point) {
                    CastResult::Inside
                } else {
                    CastResult::NoHit
                },
            }
        }
    }
}

impl<N> Ray<N> {
    /// What [`Ray::inner_into`] returns where the conversion is specified:
    /// origin and direction converted.
    pub open spec fn spec_inner_into<B: From<N>>(self) -> Ray<B> {
        Ray { point: self.point.spec_inner_into::<B>(), dir: self.dir.spec_inner_into::<B>() }
    }

    /// The ray of four components that were each converted or not: the ray
    /// if all four were, else the error of the first that was not, in the
    /// order `point.x`, `point.y`, `dir.x`, `dir.y`.
    pub open spec fn first_error<E>(
        point_x: Result<N, E>,
        point_y: Result<N, E>,
        dir_x: Result<N, E>,
        dir_y: Result<N, E>,
    ) -> Result<Ray<N>, E> {
        match Vec2::<N>::first_error(point_x, point_y) {
            Err(e) => Err(e),
            Ok(point) => match Vec2::<N>::first_error(dir_x, dir_y) {
                Err(e) => Err(e),
                Ok(dir) => Ok(Ray { point, dir }),
            },
        }
    }

    /// What [`Ray::inner_try_into`] returns where the conversion is
    /// specified: origin and direction converted, or the error of the first
    /// component that cannot be, in the order `point.x`, `point.y`, `dir.x`,
    /// `dir.y`.
    pub open spec fn spec_inner_try_into<B: TryFrom<N>>(self) -> Result<Ray<B>, B::Error> {
        Ray::<B>::first_error(
            B::try_from_spec(self.point.x),
            B::try_from_spec(self.point.y),
            B::try_from_spec(self.dir.x),
            B::try_from_spec(self.dir.y),
        )
    }

    /// Converts origin and direction with `From`.
    pub fn inner_into<B: From<N>>(self) -> (r: Ray<B>)
        ensures
            call_ensures(B::from, (self.point.x,), r.point.x),
            call_ensures(B::from, (self.point.y,), r.point.y),
            call_ensures(B::from, (self.dir.x,), r.dir.x),
            call_ensures(B::from, (self.dir.y,), r.dir.y),
            B::obeys_from_spec() ==> r == self.spec_inner_into::<B>(),
    {
        let point = self.point.inner_into();
        let dir = self.dir.inner_into();
        Ray { point, dir }
    }

    /// Converts origin and direction with `TryFrom`. Fails with the error of
    /// the first component that cannot be converted, in the order `point.x`,
    /// `point.y`, `dir.x`, `dir.y`.
    pub fn inner_try_into<B: TryFrom<N>>(self) -> (r: Result<Ray<B>, B::Error>)
        ensures
            exists|
                point_x: Result<B, B::Error>,
                point_y: Result<B, B::Error>,
                dir_x: Result<B, B::Error>,
                dir_y: Result<B, B::Error>,
            |
                {
                    &&& #[trigger] call_ensures(B::try_from, (self.point.x,), point_x)
                    &&& #[trigger] call_ensures(B::try_from, (self.point.y,), point_y)
                    &&& #[trigger] call_ensures(B::try_from, (self.dir.x,), dir_x)
                    &&& #[trigger] call_ensures(B::try_from, (self.dir.y,), dir_y)
                    &&& r == Ray::<B>::first_error(point_x, point_y, dir_x, dir_y)
                },
            B::obeys_try_from_spec() ==> r == self.spec_inner_try_into::<B>(),
    {
        let point = self.point.inner_try_into();
        let dir = self.dir.inner_try_into();
        match (point, dir) {
            (Ok(point), Ok(dir)) => Ok(Ray { point, dir }),
            (Err(e), Ok(_)) => Err(e),
            (Ok(_), Err(e)) => Err(e),
            (Err(e), Err(_)) => Err(e),
        }
    }
}

impl<N: Ordered> Ray<N> {
    /// On which side of `range` the origin of the ray lies on `axis`: `Less`
    /// to the left of it, `Greater` to the right of it, `Equal` within it.
    pub fn range_side(&self, axis: Axis, range: &Range<N>) -> (r: Ordering)
        ensures
            r == self@.origin_side(axis, range@),
    {
        let v = match axis {
            Axis::X => self.point.x,
            Axis::Y => self.point.y,
        };
        range.left_or_right_or_contain(&v)
    }
}

impl<N: Number> Ray<N> {
    /// Whether the point at ray parameter `tval` can be computed in `N`.
    pub open spec fn point_at_tval_fits(self, tval: N) -> bool {
        &&& self@.dir.spec_mul(tval.as_int()).fits::<N>()
        &&& self@.spec_point_at_tval(tval.as_int()).fits::<N>()
    }

    /// The point `point + dir * tval`. The parameter may be negative.
    pub fn point_at_tval(&self, tval: N) -> (r: Vec2<N>)
        requires
            self.point_at_tval_fits(tval),
        ensures
            r@ == self@.spec_point_at_tval(tval.as_int()),
    {
        self.point + self.dir * tval
    }
}

/// Whether [`cast_to_range`] can compute in `N` the offset of `pos` from
/// `range` and, where the ray hits, the distance.
pub open spec fn cast_to_range_fits<N: SignedNumber>(range: Range<N>, pos: N, dir: N) -> bool {
    &&& pos.as_int() < range@.left ==> {
        &&& N::fits(pos.as_int() - range@.left)
        &&& dir.as_int() > 0 ==> N::fits(range@.left - pos.as_int())
    }
    &&& pos.as_int() > range@.right ==> N::fits(pos.as_int() - range@.right)
}

/// Casts a ray that runs along one axis, from `pos` and moving by `dir`, to
/// the range on that axis.
pub fn cast_to_range<N: SignedNumber>(range: &Range<N>, pos: N, dir: N) -> (r: CastResult<N>)
    requires
        cast_to_range_fits(*range, pos, dir),
    ensures
        r@ == spec_cast_to_range(range@, pos.as_int(), dir.as_int()),
{
    match range.difference_to_point(pos) {
        Some(diff) => {
            proof {
                N::lemma_units_fit();
            }
            if diff.signum().eq(dir.signum().neg()) {
                CastResult::Hit(diff.abs())
            } else {
                CastResult::NoHit
            }
        },
        None => CastResult::Inside,
    }
}

impl<N: SignedNumber> Ray<N> {
    /// Whether the crossing of the ray on `axis` can be computed in `N`: the
    /// offset of the facing side from the origin, the ray parameter of the
    /// crossing and, where that is positive, the coordinate reached on the
    /// other axis.
    pub open spec fn crossing_fits(self, rect: Rect<N>, axis: Axis) -> bool {
        let pos = self@.point.spec_get_axis(axis);
        let dir = self@.dir.spec_get_axis(axis);
        let other = axis.spec_other();
        let offset = facing_side(rect@.spec_get_range(axis), dir) - pos;
        let t = crate::num::trunc_div(offset, dir);
        &&& N::fits(offset)
        &&& N::fits(t)
        &&& t > 0 ==> {
            &&& N::fits(self@.dir.spec_get_axis(other) * t)
            &&& N::fits(self@.spec_point_at_tval(t).spec_get_axis(other))
        }
    }

    /// Whether every value that [`Ray::cast_to_rect`] computes on the way
    /// can be held in `N`.
    pub open spec fn cast_to_rect_fits(self, rect: Rect<N>) -> bool {
        if self@.dir.x == 0 {
            rect@.x.spec_contains(self@.point.x) ==> cast_to_range_fits(
                rect.y,
                self.point.y,
                self.dir.y,
            )
        } else if self@.dir.y == 0 {
            rect@.y.spec_contains(self@.point.y) ==> cast_to_range_fits(
                rect.x,
                self.point.x,
                self.dir.x,
            )
        } else {
            self.crossing_fits(rect, Axis::X) && self.crossing_fits(rect, Axis::Y)
        }
    }

    /// The ray parameter at which the ray crosses the side of the rectangle
    /// that faces it on `axis`, if that is a crossing of the rectangle.
    fn crossing(&self, rect: &Rect<N>, axis: Axis) -> (r: Option<N>)
        requires
            self@.dir.spec_get_axis(axis) != 0,
            self.crossing_fits(*rect, axis),
        ensures
            match r {
                Some(t) => self@.spec_crossing(rect@, axis) == Some(t.as_int()),
                None => self@.spec_crossing(rect@, axis) is None,
            },
    {
        let zero = N::zero();
        let other = axis.other();
        let range = rect.get_range(axis);
        let pos = *self.point.get_axis(axis);
        let dir = *self.dir.get_axis(axis);
        let next = if dir.lt(zero) {
            range.right
        } else {
            range.left
        };
        let tval = next.sub(pos).div(dir);
        if zero.lt(tval) {
            let reached = self.point.get_axis(other).add(self.dir.get_axis(other).mul(tval));
            if rect.get_range(other).contains(reached) {
                Some(tval)
            } else {
                None
            }
        } else {
            None
        }
    }

    /// Returns how the ray meets an axis-aligned rectangle.
    pub fn cast_to_rect(&self, rect: &Rect<N>) -> (r: CastResult<N>)
        requires
            self.cast_to_rect_fits(*rect),
        ensures
            r@ == self@.spec_cast_to_rect(rect@),
    {
        let zero = N::zero();
        if self.dir.x.eq(zero) {
            return if rect.x.contains(self.point.x) {
                cast_to_range(&rect.y, self.point.y, self.dir.y)
            } else {
                CastResult::NoHit
            };
        }
        if self.dir.y.eq(zero) {
            return if rect.y.contains(self.point.y) {
                cast_to_range(&rect.x, self.point.x, self.dir.x)
            } else {
                CastResult::NoHit
            };
        }
        match (self.crossing(rect, Axis::X), self.crossing(rect, Axis::Y)) {
            (Some(x), Some(y)) => CastResult::Hit(
                if x.le(y) {
                    x
                } else {
                    y
                },
            ),
            (Some(x), None) => CastResult::Hit(x),
            (None, Some(y)) => CastResult::Hit(y),
            (None, None) => {
                if rect.contains_point(self.point) {
                    CastResult::Inside
                } else {
                    CastResult::NoHit
                }
            },
        }
    }
}

impl Ray<int> {
    /// Whether every coordinate of origin and direction lies within `bound`
    /// of zero.
    pub open spec fn is_within(self, bound: int) -> bool {
        &&& -bound <= self.point.x <= bound
        &&& -bound <= self.point.y <= bound
        &&& -bound <= self.dir.x <= bound
        &&& -bound <= self.dir.y <= bound
    }
}

impl Rect<int> {
    /// Whether every endpoint lies within `bound` of zero.
    pub open spec fn is_within(self, bound: int) -> bool {
        &&& -bound <= self.x.left <= bound
        &&& -bound <= self.x.right <= bound
        &&& -bound <= self.y.left <= bound
        &&& -bound <= self.y.right <= bound
    }
}

/// A ray starts inside a rectangle exactly when its origin lies in the
/// rectangle.
pub proof fn lemma_inside_iff_origin_in_rect(ray: Ray<int>, rect: Rect<int>)
    ensures
        ray.spec_cast_to_rect(rect) == CastResult::<int>::Inside <==> rect.spec_contains_point(
            ray.point,
        ),
{
    if ray.dir.x != 0 && ray.dir.y != 0 && rect.spec_contains_point(ray.point) {
        crate::num::lemma_trunc_div_sign(facing_side(rect.x, ray.dir.x) - ray.point.x, ray.dir.x);
        crate::num::lemma_trunc_div_sign(facing_side(rect.y, ray.dir.y) - ray.point.y, ray.dir.y);
    }
}

/// A ray hits a rectangle only ahead of its origin: the ray parameter of a
/// hit is positive.
pub proof fn lemma_hit_is_ahead(ray: Ray<int>, rect: Rect<int>)
    ensures
        ray.spec_cast_to_rect(rect) matches CastResult::Hit(t) ==> t > 0,
{
}

/// A ray that moves on both axes is outside the rectangle at every whole ray
/// parameter before the one at which it hits.
pub proof fn lemma_outside_before_hit(ray: Ray<int>, rect: Rect<int>, t: int)
    requires
        ray.dir.x != 0,
        ray.dir.y != 0,
        ray.spec_cast_to_rect(rect) matches CastResult::Hit(hit) && 0 <= t < hit,
    ensures
        !rect.spec_contains_point(ray.spec_point_at_tval(t)),
{
    if ray.spec_crossing(rect, Axis::X) matches Some(x) && t < x {
        lemma_outside_before_crossing(rect.x, ray.point.x, ray.dir.x, t);
    } else {
        lemma_outside_before_crossing(rect.y, ray.point.y, ray.dir.y, t);
    }
}

/// A ray that runs along one axis is outside the rectangle for as long as it
/// has travelled less than the distance at which it hits.
pub proof fn lemma_outside_before_parallel_hit(ray: Ray<int>, rect: Rect<int>, t: int)
    requires
        ray.dir.x == 0 || ray.dir.y == 0,
        t >= 0,
        ray.spec_cast_to_rect(rect) matches CastResult::Hit(hit) && vstd::math::abs(ray.dir.x * t)
            + vstd::math::abs(ray.dir.y * t) < hit,
    ensures
        !rect.spec_contains_point(ray.spec_point_at_tval(t)),
{
}

/// Before the ray parameter at which a ray reaches the endpoint of a range
/// that faces it, at whole ray parameters, the ray is outside the range.
proof fn lemma_outside_before_crossing(range: Range<int>, pos: int, dir: int, t: int)
    requires
        dir != 0,
        0 <= t < crossing_tval(range, pos, dir),
    ensures
        !range.spec_contains(pos + dir * t),
{
    let offset = facing_side(range, dir) - pos;
    let reach = crossing_tval(range, pos, dir);
    crate::num::lemma_trunc_div_remainder(offset, dir);
    crate::num::lemma_trunc_div_sign(offset, dir);
    assert(dir > 0 ==> dir * t <= dir * reach - dir) by (nonlinear_arith)
        requires
            t <= reach - 1,
    ;
    assert(dir < 0 ==> dir * t >= dir * reach - dir) by (nonlinear_arith)
        requires
            t <= reach - 1,
    ;
}

/// Where the direction divides the offset of the facing side exactly, the
/// crossing on `axis` is a point of the rectangle's boundary: the ray's point
/// at the crossing lies on the facing side, within the rectangle's extent on
/// the other axis.
pub proof fn lemma_exact_crossing_is_on_boundary(ray: Ray<int>, rect: Rect<int>, axis: Axis, t: int)
    requires
        ray.dir.spec_get_axis(axis) != 0,
        ray.spec_crossing(rect, axis) == Some(t),
        crate::num::trunc_rem(
            facing_side(rect.spec_get_range(axis), ray.dir.spec_get_axis(axis))
                - ray.point.spec_get_axis(axis),
            ray.dir.spec_get_axis(axis),
        ) == 0,
    ensures
        ray.spec_point_at_tval(t).spec_get_axis(axis) == facing_side(
            rect.spec_get_range(axis),
            ray.dir.spec_get_axis(axis),
        ),
        rect.spec_get_range(axis.spec_other()).spec_contains(
            ray.spec_point_at_tval(t).spec_get_axis(axis.spec_other()),
        ),
{
}

/// A cast whose coordinates all lie within `bound` of zero can be computed
/// in every number type that holds `2 * bound * bound + bound` and its
/// negation.
pub proof fn lemma_cast_to_rect_fits<N: SignedNumber>(ray: Ray<N>, rect: Rect<N>, bound: int)
    requires
        ray@.is_within(bound),
        rect@.is_within(bound),
        N::fits(2 * bound * bound + bound),
        N::fits(-(2 * bound * bound + bound)),
    ensures
        ray.cast_to_rect_fits(rect),
{
    assert(bound >= 0);
    assert(0 <= 2 * bound <= 2 * bound * bound + bound) by (nonlinear_arith)
        requires
            bound >= 0,
    ;
    if ray@.dir.x != 0 && ray@.dir.y != 0 {
        lemma_crossing_fits(ray, rect, Axis::X, bound);
        lemma_crossing_fits(ray, rect, Axis::Y, bound);
    }
}

/// The crossing on one axis of a cast whose coordinates all lie within
/// `bound` of zero can be computed in every number type that holds
/// `2 * bound * bound + bound` and its negation.
proof fn lemma_crossing_fits<N: SignedNumber>(ray: Ray<N>, rect: Rect<N>, axis: Axis, bound: int)
    requires
        ray@.is_within(bound),
        rect@.is_within(bound),
        N::fits(2 * bound * bound + bound),
        N::fits(-(2 * bound * bound + bound)),
        ray@.dir.spec_get_axis(axis) != 0,
    ensures
        ray.crossing_fits(rect, axis),
{
    let pos = ray@.point.spec_get_axis(axis);
    let dir = ray@.dir.spec_get_axis(axis);
    let other = axis.spec_other();
    let offset = facing_side(rect@.spec_get_range(axis), dir) - pos;
    let t = crate::num::trunc_div(offset, dir);
    let odir = ray@.dir.spec_get_axis(other);
    crate::num::lemma_trunc_div_sign(offset, dir);
    assert(-2 * bound <= offset <= 2 * bound);
    assert(-2 * bound <= t <= 2 * bound);
    assert(0 <= 2 * bound <= 2 * bound * bound + bound) by (nonlinear_arith)
        requires
            bound >= 0,
    ;
    crate::num::lemma_product_bound(odir, t, bound, 2 * bound);
    assert(bound * (2 * bound) == 2 * bound * bound) by (nonlinear_arith);
}

} // verus!
