//! The machine integers as scalars.
//!
//! `i32` and `i64` stand for themselves. Comparison and ring arithmetic are
//! the built-in operators; zero, absolute value and sign are taken from
//! `num_traits`, through the wrappers at the end of this file.
use crate::num::Number;
use crate::num::Ordered;
use crate::num::SignedNumber;
use vstd::prelude::*;

verus! {

impl Ordered for i32 {
    open spec fn as_int(self) -> int {
        self as int
    }

    proof fn lemma_as_int_injective(a: Self, b: Self) {
    }

    fn lt(self, rhs: Self) -> (r: bool) {
        self < rhs
    }

    fn le(self, rhs: Self) -> (r: bool) {
        self <= rhs
    }

    fn eq(self, rhs: Self) -> (r: bool) {
        self == rhs
    }
}

impl Number for i32 {
    open spec fn min_int() -> int {
        i32::MIN as int
    }

    open spec fn max_int() -> int {
        i32::MAX as int
    }

    proof fn lemma_bounded(a: Self) {
    }

    fn zero() -> (r: Self) {
        zero_i32()
    }

    fn add(self, rhs: Self) -> (r: Self) {
        self + rhs
    }

    fn sub(self, rhs: Self) -> (r: Self) {
        self - rhs
    }

    fn mul(self, rhs: Self) -> (r: Self) {
        self * rhs
    }

    fn div(self, rhs: Self) -> (r: Self) {
        proof {
            if rhs == -1 {
                lemma_min_by_minus_one(self as int, rhs as int);
            }
        }
        self / rhs
    }
}

impl SignedNumber for i32 {
    proof fn lemma_units_fit() {
    }

    fn neg(self) -> (r: Self) {
        -self
    }

    fn abs(self) -> (r: Self) {
        abs_i32(self)
    }

    fn signum(self) -> (r: Self) {
        signum_i32(self)
    }
}

impl Ordered for i64 {
    open spec fn as_int(self) -> int {
        self as int
    }

    proof fn lemma_as_int_injective(a: Self, b: Self) {
    }

    fn lt(self, rhs: Self) -> (r: bool) {
        self < rhs
    }

    fn le(self, rhs: Self) -> (r: bool) {
        self <= rhs
    }

    fn eq(self, rhs: Self) -> (r: bool) {
        self == rhs
    }
}

impl Number for i64 {
    open spec fn min_int() -> int {
        i64::MIN as int
    }

    open spec fn max_int() -> int {
        i64::MAX as int
    }

    proof fn lemma_bounded(a: Self) {
    }

    fn zero() -> (r: Self) {
        zero_i64()
    }

    fn add(self, rhs: Self) -> (r: Self) {
        self + rhs
    }

    fn sub(self, rhs: Self) -> (r: Self) {
        self - rhs
    }

    fn mul(self, rhs: Self) -> (r: Self) {
        self * rhs
    }

    fn div(self, rhs: Self) -> (r: Self) {
        proof {
            if rhs == -1 {
                lemma_min_by_minus_one(self as int, rhs as int);
            }
        }
        self / rhs
    }
}

impl SignedNumber for i64 {
    proof fn lemma_units_fit() {
    }

    fn neg(self) -> (r: Self) {
        -self
    }

    fn abs(self) -> (r: Self) {
        abs_i64(self)
    }

    fn signum(self) -> (r: Self) {
        signum_i64(self)
    }
}

/// Dividing by `-1` negates, so the one quotient of machine integers that
/// leaves their range is the smallest integer divided by `-1`.
proof fn lemma_min_by_minus_one(a: int, b: int)
    requires
        b == -1,
    ensures
        crate::num::trunc_div(a, b) == -a,
{
    crate::num::lemma_trunc_div_remainder(a, b);
    assert(crate::num::trunc_div(a, b) == -a) by (nonlinear_arith)
        requires
            b == -1,
            crate::num::trunc_rem(a, b) == a - b * crate::num::trunc_div(a, b),
            crate::num::trunc_rem(a, b) == 0,
    ;
}

/// `<i32 as num_traits::Zero>::zero`, which returns the literal `0`.
#[verifier::external_body]
fn zero_i32() -> (r: i32)
    ensures
        r == 0,
{
    num_traits::Zero::zero()
}

/// `<i32 as num_traits::Signed>::abs`, which negates a negative number and
/// returns any other unchanged. Negating `i32::MIN` overflows, so that input
/// is left out.
#[verifier::external_body]
fn abs_i32(x: i32) -> (r: i32)
    requires
        x != i32::MIN,
    ensures
        r == vstd::math::abs(x as int),
{
    num_traits::Signed::abs(&x)
}

/// `<i32 as num_traits::Signed>::signum`, which returns `1` for a positive
/// number, `0` for zero and `-1` for a negative number.
#[verifier::external_body]
fn signum_i32(x: i32) -> (r: i32)
    ensures
        r == crate::num::signum(x as int),
{
    num_traits::Signed::signum(&x)
}

/// `<i64 as num_traits::Zero>::zero`, which returns the literal `0`.
#[verifier::external_body]
fn zero_i64() -> (r: i64)
    ensures
        r == 0,
{
    num_traits::Zero::zero()
}

/// `<i64 as num_traits::Signed>::abs`, which negates a negative number and
/// returns any other unchanged. Negating `i64::MIN` overflows, so that input
/// is left out.
#[verifier::external_body]
fn abs_i64(x: i64) -> (r: i64)
    requires
        x != i64::MIN,
    ensures
        r == vstd::math::abs(x as int),
{
    num_traits::Signed::abs(&x)
}

/// `<i64 as num_traits::Signed>::signum`, which returns `1` for a positive
/// number, `0` for zero and `-1` for a negative number.
#[verifier::external_body]
fn signum_i64(x: i64) -> (r: i64)
    ensures
        r == crate::num::signum(x as int),
{
    num_traits::Signed::signum(&x)
}

} // verus!
