//! The quadratic that a ray and a circle have in common.
//!
//! A ray meets a circle where `|point + dir * t - center|^2 == radius^2`,
//! which is a quadratic equation in the ray parameter `t`. This module forms
//! that equation and reads the outcome of the cast off its roots. Solving the
//! equation lies between the two and is not done here: the roots of a
//! quadratic with integer coefficients are not integers in general.
use crate::num::Bounded;
use crate::num::Number;
use crate::num::Ordered;
use crate::ray::CastResult;
use crate::ray::Ray;
use crate::vec2::Vec2;
use vstd::prelude::*;

verus! {

/// The quadratic `a * t^2 + b * t + c`.
#[derive(Copy, Clone, Debug, PartialEq, Eq)]
#[must_use]
pub struct Quadratic<N> {
    pub a: N,
    pub b: N,
    pub c: N,
}

/// The real roots of a quadratic equation: none, one, or two.
#[derive(Copy, Clone, Debug, PartialEq, Eq)]
#[must_use]
pub enum QuadraticRoots<N> {
    /// The equation has no root.
    No,
    /// The equation has one root.
    One(N),
    /// The equation has two roots, in either order.
    Two(N, N),
}

impl<N: Ordered> View for Quadratic<N> {
    type V = Quadratic<int>;

    /// The quadratic of the integers that the coefficients stand for.
    open spec fn view(&self) -> Quadratic<int> {
        Quadratic { a: self.a.as_int(), b: self.b.as_int(), c: self.c.as_int() }
    }
}

impl<N: Ordered> View for QuadraticRoots<N> {
    type V = QuadraticRoots<int>;

    /// The same roots, as the integers that they stand for.
    open spec fn view(&self) -> QuadraticRoots<int> {
        match *self {
            QuadraticRoots::No => QuadraticRoots::No,
            QuadraticRoots::One(r) => QuadraticRoots::One(r.as_int()),
            QuadraticRoots::Two(r, s) => QuadraticRoots::Two(r.as_int(), s.as_int()),
        }
    }
}

impl Quadratic<int> {
    /// The value of the quadratic at `t`.
    pub open spec fn spec_eval(self, t: int) -> int {
        self.a * t * t + self.b * t + self.c
    }
}

impl QuadraticRoots<int> {
    /// Whether each of the roots is a root of `q`.
    pub open spec fn are_roots_of(self, q: Quadratic<int>) -> bool {
        match self {
            QuadraticRoots::No => true,
            QuadraticRoots::One(r) => q.spec_eval(r) == 0,
            QuadraticRoots::Two(r, s) => q.spec_eval(r) == 0 && q.spec_eval(s) == 0,
        }
    }
}

impl Ray<int> {
    /// The quadratic in the ray parameter `t` whose value is the squared
    /// distance of the ray's point at `t` from `center`, less the squared
    /// radius.
    pub open spec fn spec_circle_quadratic(self, center: Vec2<int>, radius: int) -> Quadratic<
        int,
    > {
        let rel = self.point.spec_sub(center);
        Quadratic {
            a: self.dir.spec_magnitude2(),
            b: 2 * self.dir.spec_dot(rel),
            c: rel.spec_magnitude2() - radius * radius,
        }
    }
}

impl CastResult<int> {
    /// How a ray meets a circle, given the ray parameters at which it crosses
    /// the circle.
    ///
    /// Without a root the ray misses. With one root it hits there, unless
    /// that lies behind the origin. With two roots it misses if both lie
    /// behind the origin, starts inside if only the closer one does, and
    /// else hits at the closer one.
    pub open spec fn spec_from_roots(roots: QuadraticRoots<int>) -> CastResult<int> {
        match roots {
            QuadraticRoots::No => CastResult::NoHit,
            QuadraticRoots::One(r) => if r < 0 {
                CastResult::NoHit
            } else {
                CastResult::Hit(r)
            },
            QuadraticRoots::Two(r, s) => {
                let closer = vstd::math::min(r, s);
                let further = vstd::math::max(r, s);
                if further < 0 {
                    CastResult::NoHit
                } else if closer < 0 {
                    CastResult::Inside
                } else {
                    CastResult::Hit(closer)
                }
            },
        }
    }
}

impl<N: Number> Ray<N> {
    /// Whether every value that [`Ray::circle_quadratic`] computes on the
    /// way can be held in `N`.
    pub open spec fn circle_quadratic_fits(self, center: Vec2<N>, radius: N) -> bool {
        let rel = self@.point.spec_sub(center@);
        &&& rel.fits::<N>()
        &&& self@.dir.dot_fits::<N>(self@.dir)
        &&& self@.dir.dot_fits::<N>(rel)
        &&& N::fits(2 * self@.dir.spec_dot(rel))
        &&& rel.dot_fits::<N>(rel)
        &&& N::fits(radius.as_int() * radius.as_int())
        &&& N::fits(rel.spec_magnitude2() - radius.as_int() * radius.as_int())
    }

    /// The quadratic whose roots are the ray parameters at which the ray
    /// crosses the circle around `center` with the given radius.
    pub fn circle_quadratic(&self, center: Vec2<N>, radius: N) -> (q: Quadratic<N>)
        requires
            self.circle_quadratic_fits(center, radius),
        ensures
            q@ == self@.spec_circle_quadratic(center@, radius.as_int()),
    {
        let rel = self.point - center;
        let a = self.dir.magnitude2();
        let half_b = self.dir.dot(rel);
        let b = half_b.add(half_b);
        let c = rel.magnitude2().sub(radius.mul(radius));
        Quadratic { a, b, c }
    }
}

impl<N: Number> CastResult<N> {
    /// Returns how a ray meets a circle, given the roots of their quadratic.
    pub fn from_roots(roots: QuadraticRoots<N>) -> (r: CastResult<N>)
        ensures
            r@ == CastResult::<int>::spec_from_roots(roots@),
    {
        let zero = N::zero();
        match roots {
            QuadraticRoots::No => CastResult::NoHit,
            QuadraticRoots::One(a) => {
                if a.lt(zero) {
                    CastResult::NoHit
                } else {
                    CastResult::Hit(a)
                }
            },
            QuadraticRoots::Two(a, b) => {
                let (closer, further) = if a.lt(b) {
                    (a, b)
                } else {
                    (b, a)
                };
                if further.lt(zero) {
                    CastResult::NoHit
                } else if closer.lt(zero) {
                    CastResult::Inside
                } else {
                    CastResult::Hit(closer)
                }
            },
        }
    }
}

/// The quadratic of a ray and a circle measures, at every ray parameter, how
/// far the squared distance of the ray's point from the centre is from the
/// squared radius. So its roots are the parameters of the points of the ray's
/// line that lie on the circle.
pub proof fn lemma_quadratic_measures_distance(
    ray: Ray<int>,
    center: Vec2<int>,
    radius: int,
    t: int,
)
    ensures
        ray.spec_circle_quadratic(center, radius).spec_eval(t) == ray.spec_point_at_tval(
            t,
        ).spec_sub(center).spec_magnitude2() - radius * radius,
{
    let dx = ray.dir.x;
    let dy = ray.dir.y;
    let rx = ray.point.x - center.x;
    let ry = ray.point.y - center.y;
    lemma_shifted_square(rx, dx, t);
    lemma_shifted_square(ry, dy, t);
    let a = dx * dx;
    let b = dy * dy;
    let p = dx * rx;
    let q = dy * ry;
    assert((a + b) * t * t == a * t * t + b * t * t) by (nonlinear_arith);
    assert((2 * (p + q)) * t == (2 * p) * t + (2 * q) * t) by (nonlinear_arith);
}

/// The quadratic of a ray and a circle whose coordinates and radius all lie
/// within `bound` of zero can be formed in every number type that holds
/// `8 * bound * bound` and its negation.
pub proof fn lemma_circle_quadratic_fits<N: Number>(
    ray: Ray<N>,
    center: Vec2<N>,
    radius: N,
    bound: int,
)
    requires
        ray@.is_within(bound),
        -bound <= center@.x <= bound,
        -bound <= center@.y <= bound,
        -bound <= radius.as_int() <= bound,
        N::fits(8 * bound * bound),
        N::fits(-(8 * bound * bound)),
    ensures
        ray.circle_quadratic_fits(center, radius),
{
    let rel = ray@.point.spec_sub(center@);
    let dir = ray@.dir;
    let r = radius.as_int();
    assert(0 <= 2 * bound <= 8 * bound * bound) by (nonlinear_arith)
        requires
            bound >= 0,
    ;
    crate::num::lemma_product_bound(dir.x, dir.x, bound, bound);
    crate::num::lemma_product_bound(dir.y, dir.y, bound, bound);
    crate::num::lemma_product_bound(dir.x, rel.x, bound, 2 * bound);
    crate::num::lemma_product_bound(dir.y, rel.y, bound, 2 * bound);
    crate::num::lemma_product_bound(rel.x, rel.x, 2 * bound, 2 * bound);
    crate::num::lemma_product_bound(rel.y, rel.y, 2 * bound, 2 * bound);
    crate::num::lemma_product_bound(r, r, bound, bound);
    assert(bound * (2 * bound) == 2 * (bound * bound) && (2 * bound) * (2 * bound) == 4 * (bound
        * bound) && 8 * bound * bound == 8 * (bound * bound)) by (nonlinear_arith);
    assert(r * r >= 0 && rel.x * rel.x >= 0 && rel.y * rel.y >= 0) by (nonlinear_arith);
}

/// The square of `r + d * t`, as a quadratic in `t`.
proof fn lemma_shifted_square(r: int, d: int, t: int)
    by (nonlinear_arith)
    ensures
        (r + d * t) * (r + d * t) == (d * d) * t * t + (2 * (d * r)) * t + r * r,
{
}

/// A ray that starts at the centre of a circle of nonzero radius, in any
/// nonzero direction, starts inside: whatever two distinct roots the
/// quadratic of ray and circle has, one lies behind the origin and the other
/// ahead of it.
pub proof fn lemma_cast_from_center(ray: Ray<int>, center: Vec2<int>, radius: int, r: int, s: int)
    requires
        ray.point == center,
        ray.dir != Vec2::<int>::spec_zero(),
        radius != 0,
        r != s,
        QuadraticRoots::Two(r, s).are_roots_of(ray.spec_circle_quadratic(center, radius)),
    ensures
        CastResult::<int>::spec_from_roots(QuadraticRoots::Two(r, s)) == CastResult::<int>::Inside,
{
    let q = ray.spec_circle_quadratic(center, radius);
    crate::vec2::lemma_magnitude2_is_self_dot(ray.dir);
    assert(radius * radius > 0) by (nonlinear_arith)
        requires
            radius != 0,
    ;
    assert(q.b == 0 && q.c < 0 && q.a > 0) by (nonlinear_arith)
        requires
            q.a == ray.dir.x * ray.dir.x + ray.dir.y * ray.dir.y,
            q.a > 0,
            q.b == 2 * (ray.dir.x * 0 + ray.dir.y * 0),
            q.c == 0 * 0 + 0 * 0 - radius * radius,
            radius * radius > 0,
    ;
    assert((r < 0 && s > 0) || (r > 0 && s < 0)) by (nonlinear_arith)
        requires
            q.a > 0,
            q.c < 0,
            q.a * r * r + 0 * r + q.c == 0,
            q.a * s * s + 0 * s + q.c == 0,
            r != s,
    ;
}

/// A ray that starts outside a circle and does not point toward its centre
/// misses it: every root of the quadratic of ray and circle lies behind the
/// origin.
pub proof fn lemma_cast_away(
    ray: Ray<int>,
    center: Vec2<int>,
    radius: int,
    roots: QuadraticRoots<int>,
)
    requires
        ray.point.spec_sub(center).spec_magnitude2() > radius * radius,
        ray.dir.spec_dot(ray.point.spec_sub(center)) >= 0,
        roots.are_roots_of(ray.spec_circle_quadratic(center, radius)),
    ensures
        CastResult::<int>::spec_from_roots(roots) == CastResult::<int>::NoHit,
{
    let q = ray.spec_circle_quadratic(center, radius);
    crate::vec2::lemma_magnitude2_is_self_dot(ray.dir);
    assert forall|t: int| q.spec_eval(t) == 0 implies t < 0 by {
        assert(t < 0) by (nonlinear_arith)
            requires
                q.a >= 0,
                q.b >= 0,
                q.c > 0,
                q.a * t * t + q.b * t + q.c == 0,
        ;
    }
}

} // verus!
