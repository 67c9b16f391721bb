//! Numeric capabilities that the geometry is generic over.
//!
//! A scalar stands for a mathematical integer, given by [`Ordered::as_int`].
//! Every contract in this crate is stated over those integers, so the
//! arithmetic of a scalar type is described once, here, and the geometry never
//! has to know which machine type it runs on.
//!
//! The capabilities are layered: [`Ordered`] compares, [`Number`] adds the
//! arithmetic of a bounded ring with a quotient rounded toward zero, and
//! [`SignedNumber`] adds negation, absolute value and sign.
use vstd::prelude::*;

verus! {

/// Quotient of `a` by `b` rounded toward zero. Unspecified for `b == 0`.
pub open spec fn trunc_div(a: int, b: int) -> int {
    if a >= 0 {
        a / b
    } else {
        -((-a) / b)
    }
}

/// What [`trunc_div`] leaves over: `a - b * trunc_div(a, b)`.
pub open spec fn trunc_rem(a: int, b: int) -> int {
    a - b * trunc_div(a, b)
}

/// The sign of `v` as `-1`, `0` or `1`.
pub open spec fn signum(v: int) -> int {
    if v > 0 {
        1
    } else if v == 0 {
        0
    } else {
        -1
    }
}

/// The remainder of a quotient rounded toward zero is smaller in magnitude
/// than the divisor and lies on the dividend's side of zero.
pub proof fn lemma_trunc_div_remainder(a: int, b: int)
    by (nonlinear_arith)
    requires
        b != 0,
    ensures
        a >= 0 ==> 0 <= trunc_rem(a, b),
        a <= 0 ==> trunc_rem(a, b) <= 0,
        b > 0 ==> -b < trunc_rem(a, b) < b,
        b < 0 ==> b < trunc_rem(a, b) < -b,
{
}

/// The quotient rounded toward zero is no larger in magnitude than the
/// dividend, is positive exactly when dividend and divisor agree in sign and
/// the dividend is at least as large in magnitude, and is negative exactly
/// when they disagree in sign and the dividend is at least as large.
pub proof fn lemma_trunc_div_sign(a: int, b: int)
    requires
        b != 0,
    ensures
        -vstd::math::abs(a) <= trunc_div(a, b) <= vstd::math::abs(a),
        trunc_div(a, b) > 0 <==> (a >= b && b > 0) || (a <= b && b < 0),
        trunc_div(a, b) < 0 <==> (a >= -b && b < 0) || (a <= -b && b > 0),
{
    lemma_trunc_div_remainder(a, b);
    let q = trunc_div(a, b);
    assert(a == b * q + trunc_rem(a, b));
    assert(q > 0 ==> (b > 0 ==> b * q >= b) && (b < 0 ==> b * q <= b)) by (nonlinear_arith);
    assert(q < 0 ==> (b > 0 ==> b * q <= -b) && (b < 0 ==> b * q >= -b)) by (nonlinear_arith);
    assert(q == 0 ==> b * q == 0) by (nonlinear_arith);
    assert(q > 0 ==> (b > 0 ==> b * q >= q) && (b < 0 ==> b * q <= -q)) by (nonlinear_arith)
        requires
            b != 0,
    ;
    assert(q < 0 ==> (b > 0 ==> b * q <= q) && (b < 0 ==> b * q >= -q)) by (nonlinear_arith)
        requires
            b != 0,
    ;
}

/// Multiplying an integer by a nonzero factor and dividing by that factor
/// again gives the integer back.
pub proof fn lemma_trunc_div_cancels_mul(a: int, k: int)
    requires
        k != 0,
    ensures
        trunc_div(a * k, k) == a,
{
    lemma_trunc_div_remainder(a * k, k);
    let q = trunc_div(a * k, k);
    let r = trunc_rem(a * k, k);
    assert(r == k * (a - q)) by (nonlinear_arith)
        requires
            r == a * k - k * q,
    ;
    assert(a - q == 0) by (nonlinear_arith)
        requires
            r == k * (a - q),
            k > 0 ==> -k < r < k,
            k < 0 ==> k < r < -k,
            k != 0,
    ;
}

/// A product is no larger in magnitude than the product of bounds on its
/// factors.
pub proof fn lemma_product_bound(x: int, y: int, a: int, b: int)
    by (nonlinear_arith)
    requires
        -a <= x <= a,
        -b <= y <= b,
    ensures
        -(a * b) <= x * y <= a * b,
{
}

/// A scalar whose values stand for integers and are ordered as those
/// integers are.
pub trait Ordered: Copy {
    /// The integer that this value stands for.
    spec fn as_int(self) -> int;

    /// Two values that stand for the same integer are the same value.
    proof fn lemma_as_int_injective(a: Self, b: Self)
        requires
            a.as_int() == b.as_int(),
        ensures
            a == b,
    ;

    /// Whether `self` is strictly below `rhs`.
    fn lt(self, rhs: Self) -> (r: bool)
        ensures
            r == (self.as_int() < rhs.as_int()),
    ;

    /// Whether `self` is below or equal to `rhs`.
    fn le(self, rhs: Self) -> (r: bool)
        ensures
            r == (self.as_int() <= rhs.as_int()),
    ;

    /// Whether `self` and `rhs` stand for the same integer.
    fn eq(self, rhs: Self) -> (r: bool)
        ensures
            r == (self.as_int() == rhs.as_int()),
    ;
}

/// An ordered scalar with the arithmetic of the integers, on the interval of
/// integers that the type can hold.
///
/// Each operation asks that its exact result be representable and then
/// returns exactly that result: nothing wraps and nothing saturates.
pub trait Number: Ordered {
    /// The smallest integer that the type can hold.
    spec fn min_int() -> int;

    /// The largest integer that the type can hold.
    spec fn max_int() -> int;

    /// Every value stands for an integer that the type can hold.
    proof fn lemma_bounded(a: Self)
        ensures
            Self::min_int() <= a.as_int() <= Self::max_int(),
    ;

    /// The value that stands for `0`.
    fn zero() -> (r: Self)
        ensures
            r.as_int() == 0,
    ;

    /// The sum of `self` and `rhs`.
    fn add(self, rhs: Self) -> (r: Self)
        requires
            Self::min_int() <= self.as_int() + rhs.as_int() <= Self::max_int(),
        ensures
            r.as_int() == self.as_int() + rhs.as_int(),
    ;

    /// The difference of `self` and `rhs`.
    fn sub(self, rhs: Self) -> (r: Self)
        requires
            Self::min_int() <= self.as_int() - rhs.as_int() <= Self::max_int(),
        ensures
            r.as_int() == self.as_int() - rhs.as_int(),
    ;

    /// The product of `self` and `rhs`.
    fn mul(self, rhs: Self) -> (r: Self)
        requires
            Self::min_int() <= self.as_int() * rhs.as_int() <= Self::max_int(),
        ensures
            r.as_int() == self.as_int() * rhs.as_int(),
    ;

    /// The quotient of `self` by `rhs`, rounded toward zero.
    fn div(self, rhs: Self) -> (r: Self)
        requires
            rhs.as_int() != 0,
            Self::min_int() <= trunc_div(self.as_int(), rhs.as_int()) <= Self::max_int(),
        ensures
            r.as_int() == trunc_div(self.as_int(), rhs.as_int()),
    ;
}

/// The interval of integers that a number type can hold.
pub trait Bounded: Number {
    /// Whether the type can hold the integer `v`.
    spec fn fits(v: int) -> bool;
}

impl<N: Number> Bounded for N {
    open spec fn fits(v: int) -> bool {
        N::min_int() <= v <= N::max_int()
    }
}

/// A number that can be negative.
pub trait SignedNumber: Number {
    /// The type can hold both units, and so every sign.
    proof fn lemma_units_fit()
        ensures
            Self::min_int() <= -1,
            1 <= Self::max_int(),
    ;

    /// The negation of `self`.
    fn neg(self) -> (r: Self)
        requires
            Self::min_int() <= -self.as_int() <= Self::max_int(),
        ensures
            r.as_int() == -self.as_int(),
    ;

    /// The absolute value of `self`.
    fn abs(self) -> (r: Self)
        requires
            vstd::math::abs(self.as_int()) <= Self::max_int(),
        ensures
            r.as_int() == vstd::math::abs(self.as_int()),
    ;

    /// The sign of `self`: the value that stands for `-1`, `0` or `1`.
    fn signum(self) -> (r: Self)
        ensures
            r.as_int() == signum(self.as_int()),
    ;
}

} // verus!
