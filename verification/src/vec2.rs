//! Two-dimensional vectors.
use crate::cast::CastFrom;
use crate::num::Bounded;
use crate::num::Number;
use crate::num::Ordered;
use crate::num::SignedNumber;
use std::ops::Add;
use std::ops::AddAssign;
use std::ops::Div;
use std::ops::DivAssign;
use std::ops::Mul;
use std::ops::MulAssign;
use std::ops::Neg;
use std::ops::Sub;
use std::ops::SubAssign;
use vstd::prelude::*;
use vstd::std_specs::convert::FromSpec;
use vstd::std_specs::convert::TryFromSpec;

verus! {

/// One of the two coordinate axes.
#[derive(Copy, Clone, Debug, PartialEq, Eq, Hash)]
pub enum Axis {
    X,
    Y,
}

impl Axis {
    /// The axis that `self` is not.
    pub open spec fn spec_other(self) -> Axis {
        match self {
            Axis::X => Axis::Y,
            Axis::Y => Axis::X,
        }
    }

    /// The other axis.
    pub fn other(self) -> (r: Axis)
        ensures
            r == self.spec_other(),
    {
        match self {
            Axis::X => Axis::Y,
            Axis::Y => Axis::X,
        }
    }
}

/// A 2D vector. The model of a vector over a scalar type is the same vector
/// over the integers, see [`Vec2::view`].
#[derive(Copy, Clone, Debug, PartialEq, Eq, Hash)]
#[must_use]
pub struct Vec2<N> {
    pub x: N,
    pub y: N,
}

/// Convenience function to create a vector.
pub fn vec2<N>(x: N, y: N) -> (r: Vec2<N>)
    ensures
        r == (Vec2 { x, y }),
{
    Vec2 { x, y }
}

/// Convenience function to create a vector where both components are the
/// same.
pub fn vec2same<N: Copy>(a: N) -> (r: Vec2<N>)
    ensures
        r == (Vec2 { x: a, y: a }),
{
    Vec2 { x: a, y: a }
}

/// Casts both elements of an array to another scalar type.
pub fn arr2_as<B: Copy, A: CastFrom<B>>(a: [B; 2]) -> (r: [A; 2])
    ensures
        r[0] == A::cast_spec(a[0]),
        r[1] == A::cast_spec(a[1]),
{
    [A::cast_from(a[0]), A::cast_from(a[1])]
}

impl<N: Ordered> View for Vec2<N> {
    type V = Vec2<int>;

    /// The vector of the integers that the components stand for.
    open spec fn view(&self) -> Vec2<int> {
        Vec2 { x: self.x.as_int(), y: self.y.as_int() }
    }
}

impl Vec2<int> {
    /// The vector whose components are both `0`.
    pub open spec fn spec_zero() -> Vec2<int> {
        Vec2 { x: 0, y: 0 }
    }

    /// The component-wise sum.
    pub open spec fn spec_add(self, rhs: Vec2<int>) -> Vec2<int> {
        Vec2 { x: self.x + rhs.x, y: self.y + rhs.y }
    }

    /// The component-wise difference.
    pub open spec fn spec_sub(self, rhs: Vec2<int>) -> Vec2<int> {
        Vec2 { x: self.x - rhs.x, y: self.y - rhs.y }
    }

    /// Both components multiplied by `k`.
    pub open spec fn spec_mul(self, k: int) -> Vec2<int> {
        Vec2 { x: self.x * k, y: self.y * k }
    }

    /// Both components divided by `k`, each quotient rounded toward zero.
    pub open spec fn spec_div(self, k: int) -> Vec2<int> {
        Vec2 { x: crate::num::trunc_div(self.x, k), y: crate::num::trunc_div(self.y, k) }
    }

    /// Both components negated.
    pub open spec fn spec_neg(self) -> Vec2<int> {
        Vec2 { x: -self.x, y: -self.y }
    }

    /// The dot product.
    pub open spec fn spec_dot(self, rhs: Vec2<int>) -> int {
        self.x * rhs.x + self.y * rhs.y
    }

    /// The squared length.
    pub open spec fn spec_magnitude2(self) -> int {
        self.x * self.x + self.y * self.y
    }

    /// Whether the type `S` can hold both components.
    pub open spec fn fits<S: Number>(self) -> bool {
        S::fits(self.x) && S::fits(self.y)
    }

    /// Whether the dot product with `other` can be computed in `S`: both
    /// products and their sum.
    pub open spec fn dot_fits<S: Number>(self, other: Vec2<int>) -> bool {
        &&& S::fits(self.x * other.x)
        &&& S::fits(self.y * other.y)
        &&& S::fits(self.spec_dot(other))
    }
}

impl<S: Ordered> Vec2<S> {
    /// A vector with the model `v`, where the type has one.
    pub open spec fn with_view(v: Vec2<int>) -> Vec2<S> {
        choose|r: Vec2<S>| r@ == v
    }
}

impl<S: Number> Vec2<S> {
    /// The squared length of the vector.
    pub fn magnitude2(&self) -> (r: S)
        requires
            self@.dot_fits::<S>(self@),
        ensures
            r.as_int() == self@.spec_magnitude2(),
    {
        self.x.mul(self.x).add(self.y.mul(self.y))
    }

    /// The dot product with `other`.
    pub fn dot(&self, other: Vec2<S>) -> (r: S)
        requires
            self@.dot_fits::<S>(other@),
        ensures
            r.as_int() == self@.spec_dot(other@),
    {
        self.x.mul(other.x).add(self.y.mul(other.y))
    }

    /// The vector whose components are both zero.
    pub fn zero() -> (r: Vec2<S>)
        ensures
            r@ == Vec2::<int>::spec_zero(),
    {
        Vec2 { x: S::zero(), y: S::zero() }
    }

    /// Whether both components are zero.
    pub fn is_zero(&self) -> (r: bool)
        ensures
            r == (self@ == Vec2::<int>::spec_zero()),
    {
        let zero = S::zero();
        self.x.eq(zero) && self.y.eq(zero)
    }
}

impl<B> Vec2<B> {
    /// The component on `axis`.
    pub open spec fn spec_get_axis(self, axis: Axis) -> B {
        match axis {
            Axis::X => self.x,
            Axis::Y => self.y,
        }
    }

    /// The vector with the component on `axis` replaced by `value`.
    pub open spec fn spec_with_axis(self, axis: Axis, value: B) -> Vec2<B> {
        match axis {
            Axis::X => Vec2 { x: value, y: self.y },
            Axis::Y => Vec2 { x: self.x, y: value },
        }
    }

    /// What [`Vec2::inner_into`] returns where the conversion is specified:
    /// each component converted.
    pub open spec fn spec_inner_into<A: From<B>>(self) -> Vec2<A> {
        Vec2 { x: A::from_spec(self.x), y: A::from_spec(self.y) }
    }

    /// The vector of two components that were each converted or not: the
    /// vector if both were, else the error of the first that was not.
    pub open spec fn first_error<E>(x: Result<B, E>, y: Result<B, E>) -> Result<Vec2<B>, E> {
        match x {
            Err(e) => Err(e),
            Ok(x) => match y {
                Err(e) => Err(e),
                Ok(y) => Ok(Vec2 { x, y }),
            },
        }
    }

    /// What [`Vec2::inner_try_into`] returns where the conversion is
    /// specified: each component converted, or the error of the first
    /// component that cannot be, `x` before `y`.
    pub open spec fn spec_inner_try_into<A: TryFrom<B>>(self) -> Result<Vec2<A>, A::Error> {
        Vec2::<A>::first_error(A::try_from_spec(self.x), A::try_from_spec(self.y))
    }

    /// What [`Vec2::inner_as`] returns: each component cast.
    pub open spec fn spec_inner_as<A: CastFrom<B>>(self) -> Vec2<A> {
        Vec2 { x: A::cast_spec(self.x), y: A::cast_spec(self.y) }
    }

    /// Get the component of one axis.
    pub fn get_axis(&self, axis: Axis) -> (r: &B)
        ensures
            *r == self.spec_get_axis(axis),
    {
        match axis {
            Axis::X => &self.x,
            Axis::Y => &self.y,
        }
    }

    /// Get the component of one axis, to change it in place. The other
    /// component stays as it is.
    pub fn get_axis_mut(&mut self, axis: Axis) -> (r: &mut B)
        ensures
            *r == old(self).spec_get_axis(axis),
            *final(self) == old(self).spec_with_axis(axis, *final(r)),
    {
        match axis {
            Axis::X => &mut self.x,
            Axis::Y => &mut self.y,
        }
    }

    /// Converts both components with `From`.
    pub fn inner_into<A: From<B>>(self) -> (r: Vec2<A>)
        ensures
            call_ensures(A::from, (self.x,), r.x),
            call_ensures(A::from, (self.y,), r.y),
            A::obeys_from_spec() ==> r == self.spec_inner_into::<A>(),
    {
        let x = A::from(self.x);
        let y = A::from(self.y);
        vec2(x, y)
    }

    /// Converts both components with `TryFrom`. Fails with the error of the
    /// first component that cannot be converted, `x` before `y`.
    pub fn inner_try_into<A: TryFrom<B>>(self) -> (r: Result<Vec2<A>, A::Error>)
        ensures
            exists|x: Result<A, A::Error>, y: Result<A, A::Error>|
                {
                    &&& #[trigger] call_ensures(A::try_from, (self.x,), x)
                    &&& #[trigger] call_ensures(A::try_from, (self.y,), y)
                    &&& r == Vec2::<A>::first_error(x, y)
                },
            A::obeys_try_from_spec() ==> r == self.spec_inner_try_into::<A>(),
    {
        let x = A::try_from(self.x);
        let y = A::try_from(self.y);
        match (x, y) {
            (Ok(x), Ok(y)) => Ok(vec2(x, y)),
            (Ok(_), Err(e)) => Err(e),
            (Err(e), Ok(_)) => Err(e),
            (Err(e), Err(_)) => Err(e),
        }
    }
}

impl<B: Copy> Vec2<B> {
    /// Casts both components to another scalar type.
    pub fn inner_as<A: CastFrom<B>>(&self) -> (r: Vec2<A>)
        ensures
            r == self.spec_inner_as::<A>(),
    {
        vec2(A::cast_from(self.x), A::cast_from(self.y))
    }
}

impl<S: Number> vstd::std_specs::ops::AddSpecImpl for Vec2<S> {
    open spec fn obeys_add_spec() -> bool {
        true
    }

    open spec fn add_req(self, rhs: Vec2<S>) -> bool {
        self@.spec_add(rhs@).fits::<S>()
    }

    open spec fn add_spec(self, rhs: Vec2<S>) -> Vec2<S> {
        Vec2::with_view(self@.spec_add(rhs@))
    }
}

impl<S: Number> Add for Vec2<S> {
    type Output = Vec2<S>;

    /// The component-wise sum.
    fn add(self, rhs: Vec2<S>) -> (r: Vec2<S>)
        ensures
            r@ == self@.spec_add(rhs@),
    {
        let r = vec2(self.x.add(rhs.x), self.y.add(rhs.y));
        proof {
            lemma_view_injective(r, Vec2::with_view(r@));
        }
        r
    }
}

impl<S: Number> vstd::std_specs::ops::SubSpecImpl for Vec2<S> {
    open spec fn obeys_sub_spec() -> bool {
        true
    }

    open spec fn sub_req(self, rhs: Vec2<S>) -> bool {
        self@.spec_sub(rhs@).fits::<S>()
    }

    open spec fn sub_spec(self, rhs: Vec2<S>) -> Vec2<S> {
        Vec2::with_view(self@.spec_sub(rhs@))
    }
}

impl<S: Number> Sub for Vec2<S> {
    type Output = Vec2<S>;

    /// The component-wise difference.
    fn sub(self, rhs: Vec2<S>) -> (r: Vec2<S>)
        ensures
            r@ == self@.spec_sub(rhs@),
    {
        let r = vec2(self.x.sub(rhs.x), self.y.sub(rhs.y));
        proof {
            lemma_view_injective(r, Vec2::with_view(r@));
        }
        r
    }
}

impl<S: Number> vstd::std_specs::ops::MulSpecImpl<S> for Vec2<S> {
    open spec fn obeys_mul_spec() -> bool {
        true
    }

    open spec fn mul_req(self, rhs: S) -> bool {
        self@.spec_mul(rhs.as_int()).fits::<S>()
    }

    open spec fn mul_spec(self, rhs: S) -> Vec2<S> {
        Vec2::with_view(self@.spec_mul(rhs.as_int()))
    }
}

impl<S: Number> Mul<S> for Vec2<S> {
    type Output = Vec2<S>;

    /// Both components multiplied by `rhs`.
    fn mul(self, rhs: S) -> (r: Vec2<S>)
        ensures
            r@ == self@.spec_mul(rhs.as_int()),
    {
        let r = vec2(self.x.mul(rhs), self.y.mul(rhs));
        proof {
            lemma_view_injective(r, Vec2::with_view(r@));
        }
        r
    }
}

impl<S: Number> vstd::std_specs::ops::DivSpecImpl<S> for Vec2<S> {
    open spec fn obeys_div_spec() -> bool {
        true
    }

    open spec fn div_req(self, rhs: S) -> bool {
        rhs.as_int() != 0 && self@.spec_div(rhs.as_int()).fits::<S>()
    }

    open spec fn div_spec(self, rhs: S) -> Vec2<S> {
        Vec2::with_view(self@.spec_div(rhs.as_int()))
    }
}

impl<S: Number> Div<S> for Vec2<S> {
    type Output = Vec2<S>;

    /// Both components divided by `rhs`, each quotient rounded toward zero.
    fn div(self, rhs: S) -> (r: Vec2<S>)
        ensures
            r@ == self@.spec_div(rhs.as_int()),
    {
        let r = vec2(self.x.div(rhs), self.y.div(rhs));
        proof {
            lemma_view_injective(r, Vec2::with_view(r@));
        }
        r
    }
}

impl<S: SignedNumber> vstd::std_specs::ops::NegSpecImpl for Vec2<S> {
    open spec fn obeys_neg_spec() -> bool {
        true
    }

    open spec fn neg_req(self) -> bool {
        self@.spec_neg().fits::<S>()
    }

    open spec fn neg_spec(self) -> Vec2<S> {
        Vec2::with_view(self@.spec_neg())
    }
}

impl<S: SignedNumber> Neg for Vec2<S> {
    type Output = Vec2<S>;

    /// Both components negated.
    fn neg(self) -> (r: Vec2<S>)
        ensures
            r@ == self@.spec_neg(),
    {
        let r = vec2(self.x.neg(), self.y.neg());
        proof {
            lemma_view_injective(r, Vec2::with_view(r@));
        }
        r
    }
}

impl<S: Number> AddAssign for Vec2<S> {
    /// Adds `rhs` to the vector in place.
    fn add_assign(&mut self, rhs: Vec2<S>)
        requires
            old(self)@.spec_add(rhs@).fits::<S>(),
        ensures
            final(self)@ == old(self)@.spec_add(rhs@),
    {
        self.x = self.x.add(rhs.x);
        self.y = self.y.add(rhs.y);
    }
}

impl<S: Number> SubAssign for Vec2<S> {
    /// Subtracts `rhs` from the vector in place.
    fn sub_assign(&mut self, rhs: Vec2<S>)
        requires
            old(self)@.spec_sub(rhs@).fits::<S>(),
        ensures
            final(self)@ == old(self)@.spec_sub(rhs@),
    {
        self.x = self.x.sub(rhs.x);
        self.y = self.y.sub(rhs.y);
    }
}

impl<S: Number> MulAssign<S> for Vec2<S> {
    /// Multiplies both components by `scalar` in place.
    fn mul_assign(&mut self, scalar: S)
        requires
            old(self)@.spec_mul(scalar.as_int()).fits::<S>(),
        ensures
            final(self)@ == old(self)@.spec_mul(scalar.as_int()),
    {
        self.x = self.x.mul(scalar);
        self.y = self.y.mul(scalar);
    }
}

impl<S: Number> DivAssign<S> for Vec2<S> {
    /// Divides both components by `scalar` in place, each quotient rounded
    /// toward zero.
    fn div_assign(&mut self, scalar: S)
        requires
            scalar.as_int() != 0,
            old(self)@.spec_div(scalar.as_int()).fits::<S>(),
        ensures
            final(self)@ == old(self)@.spec_div(scalar.as_int()),
    {
        self.x = self.x.div(scalar);
        self.y = self.y.div(scalar);
    }
}

/// Two vectors with the same model are the same vector.
pub proof fn lemma_view_injective<S: Ordered>(a: Vec2<S>, b: Vec2<S>)
    requires
        a@ == b@,
    ensures
        a == b,
{
    S::lemma_as_int_injective(a.x, b.x);
    S::lemma_as_int_injective(a.y, b.y);
}

/// A vector and its negation add up to the zero vector.
pub proof fn lemma_add_neg_is_zero(v: Vec2<int>)
    ensures
        v.spec_add(v.spec_neg()) == Vec2::<int>::spec_zero(),
{
}

/// Multiplying a vector by a nonzero scalar and dividing it by that scalar
/// again gives the vector back.
pub proof fn lemma_mul_div_cancels(v: Vec2<int>, k: int)
    requires
        k != 0,
    ensures
        v.spec_mul(k).spec_div(k) == v,
{
    crate::num::lemma_trunc_div_cancels_mul(v.x, k);
    crate::num::lemma_trunc_div_cancels_mul(v.y, k);
}

/// The squared length of a vector is its dot product with itself, and is
/// zero for the zero vector only.
pub proof fn lemma_magnitude2_is_self_dot(v: Vec2<int>)
    ensures
        v.spec_magnitude2() == v.spec_dot(v),
        v.spec_magnitude2() >= 0,
        v.spec_magnitude2() == 0 <==> v == Vec2::<int>::spec_zero(),
{
    assert(v.x * v.x >= 0 && (v.x * v.x == 0 <==> v.x == 0)) by (nonlinear_arith);
    assert(v.y * v.y >= 0 && (v.y * v.y == 0 <==> v.y == 0)) by (nonlinear_arith);
}

/// Converting a vector of 32-bit integers to 64-bit integers loses nothing:
/// the checked conversion back succeeds and returns the vector, and so does
/// the cast back.
pub proof fn lemma_widen_round_trip(v: Vec2<i32>)
    ensures
        v.spec_inner_into::<i64>().spec_inner_try_into::<i32>() == Ok::<
            Vec2<i32>,
            std::num::TryFromIntError,
        >(v),
        v.spec_inner_as::<i64>().spec_inner_as::<i32>() == v,
{
}

} // verus!
