//! Casts between machine scalars that cannot fail: a value that the target
//! cannot hold is cut down to the target's low bits.
use vstd::prelude::*;

verus! {

/// A scalar that every value of `B` can be cast to.
pub trait CastFrom<B>: Sized {
    /// What `b` is cast to.
    spec fn cast_spec(b: B) -> Self;

    /// Casts `b`.
    fn cast_from(b: B) -> (r: Self)
        ensures
            r == Self::cast_spec(b),
    ;
}

impl CastFrom<i64> for i32 {
    open spec fn cast_spec(b: i64) -> i32 {
        b as i32
    }

    fn cast_from(b: i64) -> (r: i32) {
        i32_from_i64(b)
    }
}

impl CastFrom<i32> for i64 {
    open spec fn cast_spec(b: i32) -> i64 {
        b as i64
    }

    fn cast_from(b: i32) -> (r: i64) {
        i64_from_i32(b)
    }
}

/// Widening a 32-bit integer and narrowing it again gives it back.
pub proof fn lemma_widen_then_narrow(v: i32)
    ensures
        <i32 as CastFrom<i64>>::cast_spec(<i64 as CastFrom<i32>>::cast_spec(v)) == v,
{
}

/// Narrowing a 64-bit integer that a 32-bit integer can hold keeps its value,
/// and widening it again gives it back.
pub proof fn lemma_narrow_then_widen(v: i64)
    requires
        i32::MIN <= v <= i32::MAX,
    ensures
        <i32 as CastFrom<i64>>::cast_spec(v) == v,
        <i64 as CastFrom<i32>>::cast_spec(<i32 as CastFrom<i64>>::cast_spec(v)) == v,
{
}

/// `<i32 as primitive_from::PrimitiveFrom<i64>>::from`, which is `x as i32`:
/// the low 32 bits of `x`.
#[verifier::external_body]
fn i32_from_i64(x: i64) -> (r: i32)
    ensures
        r == x as i32,
{
    primitive_from::PrimitiveFrom::from(x)
}

/// `<i64 as primitive_from::PrimitiveFrom<i32>>::from`, which is `x as i64`:
/// the same integer.
#[verifier::external_body]
fn i64_from_i32(x: i32) -> (r: i64)
    ensures
        r == x as i64,
{
    primitive_from::PrimitiveFrom::from(x)
}

} // verus!
