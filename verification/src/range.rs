//! Closed one-dimensional intervals.
use crate::num::Bounded;
use crate::num::Number;
use crate::num::Ordered;
use std::cmp::Ordering;
use vstd::prelude::*;

verus! {

/// A closed interval `[left, right]`, held as its two endpoints.
///
/// The interval is meant to have `left <= right`; nothing enforces it, and a
/// range with `left > right` is called degenerate. The model of a range over
/// a scalar type is the same range over the integers, see [`Range::view`].
#[derive(Copy, Clone, Debug, PartialEq, Eq)]
#[must_use]
pub struct Range<T> {
    pub left: T,
    pub right: T,
}

impl<T: Ordered> View for Range<T> {
    type V = Range<int>;

    /// The interval of the integers that the endpoints stand for.
    open spec fn view(&self) -> Range<int> {
        Range { left: self.left.as_int(), right: self.right.as_int() }
    }
}

impl Range<int> {
    /// Whether the range is not degenerate.
    pub open spec fn is_ordered(self) -> bool {
        self.left <= self.right
    }

    /// Whether `pos` lies in the closed interval.
    pub open spec fn spec_contains(self, pos: int) -> bool {
        self.left <= pos <= self.right
    }

    /// Whether both endpoints of `other` lie in the closed interval.
    pub open spec fn spec_contains_range(self, other: Range<int>) -> bool {
        self.spec_contains(other.left) && self.spec_contains(other.right)
    }

    /// Whether neither interval ends before the other begins.
    pub open spec fn spec_intersects(self, other: Range<int>) -> bool {
        self.left <= other.right && other.left <= self.right
    }

    /// The larger of the left endpoints up to the smaller of the right
    /// endpoints, where that is an interval at all.
    pub open spec fn spec_get_intersection(self, other: Range<int>) -> Option<Range<int>> {
        let left = vstd::math::max(self.left, other.left);
        let right = vstd::math::min(self.right, other.right);
        if left <= right {
            Some(Range { left, right })
        } else {
            None
        }
    }

    /// The range with each endpoint moved outward as far as `other` reaches.
    pub open spec fn spec_grow_to_fit(self, other: Range<int>) -> Range<int> {
        Range {
            left: vstd::math::min(self.left, other.left),
            right: vstd::math::max(self.right, other.right),
        }
    }

    /// The range with both endpoints moved outward by `radius`.
    pub open spec fn spec_grow(self, radius: int) -> Range<int> {
        Range { left: self.left - radius, right: self.right + radius }
    }

    /// The distance from the left endpoint to the right one.
    pub open spec fn spec_len(self) -> int {
        self.right - self.left
    }

    /// On which side of the range `pos` lies: `Less` to the left of it,
    /// `Greater` to the right of it, `Equal` within it.
    pub open spec fn side_of(self, pos: int) -> Ordering {
        if pos < self.left {
            Ordering::Less
        } else if pos > self.right {
            Ordering::Greater
        } else {
            Ordering::Equal
        }
    }

    /// The signed offset of `pos` from the endpoint nearest to it: negative to
    /// the left of the range, positive to the right of it, and none within it.
    pub open spec fn spec_difference_to_point(self, pos: int) -> Option<int> {
        if pos < self.left {
            Some(pos - self.left)
        } else if pos > self.right {
            Some(pos - self.right)
        } else {
            None
        }
    }
}

impl<T: Ordered> Range<T> {
    /// Returns true if the point is inside of the range or on one of its
    /// endpoints.
    pub fn contains(&self, pos: T) -> (r: bool)
        ensures
            r == self@.spec_contains(pos.as_int()),
    {
        self.left.le(pos) && pos.le(self.right)
    }

    /// If `pos` is to the left of the range, returns `Less`; if it is to the
    /// right of the range, `Greater`; if it lies within the range, `Equal`.
    pub fn left_or_right_or_contain(&self, pos: &T) -> (r: Ordering)
        ensures
            r == self@.side_of(pos.as_int()),
    {
        if pos.lt(self.left) {
            Ordering::Less
        } else if self.right.lt(*pos) {
            Ordering::Greater
        } else {
            Ordering::Equal
        }
    }

    /// Extends the range so that it covers `b`. An endpoint only ever moves
    /// outward.
    pub fn grow_to_fit(&mut self, b: &Range<T>)
        ensures
            final(self)@ == old(self)@.spec_grow_to_fit(b@),
            final(self).left == old(self).left || final(self).left == b.left,
            final(self).right == old(self).right || final(self).right == b.right,
    {
        if b.left.lt(self.left) {
            self.left = b.left;
        }
        if self.right.lt(b.right) {
            self.right = b.right;
        }
    }

    /// Returns true if both endpoints of `val` lie within the range.
    pub fn contains_range(&self, val: &Range<T>) -> (r: bool)
        ensures
            r == self@.spec_contains_range(val@),
    {
        self.contains(val.left) && self.contains(val.right)
    }

    /// The range that two ranges have in common, if they have any point in
    /// common.
    pub fn get_intersection(&self, val: &Range<T>) -> (r: Option<Range<T>>)
        ensures
            match r {
                Some(c) => self@.spec_get_intersection(val@) == Some(c@),
                None => self@.spec_get_intersection(val@) is None,
            },
            r matches Some(c) ==> (c.left == self.left || c.left == val.left) && (c.right
                == self.right || c.right == val.right),
    {
        let a = if val.left.le(self.left) {
            self.left
        } else {
            val.left
        };
        let b = if self.right.le(val.right) {
            self.right
        } else {
            val.right
        };
        if b.lt(a) {
            None
        } else {
            Some(Range { left: a, right: b })
        }
    }

    /// Returns true if the two ranges have a point in common.
    pub fn intersects(&self, val: &Range<T>) -> (r: bool)
        ensures
            r == self@.spec_intersects(val@),
    {
        self.left.le(val.right) && val.left.le(self.right)
    }
}

impl<T: Number> Range<T> {
    /// Whether the length of the range can be computed in `T`.
    pub open spec fn len_fits(self) -> bool {
        T::fits(self@.spec_len())
    }

    /// The distance from the left endpoint to the right one.
    pub fn len(&self) -> (r: T)
        requires
            self.len_fits(),
        ensures
            r.as_int() == self@.spec_len(),
    {
        self.right.sub(self.left)
    }

    /// Whether both endpoints can move outward by `radius` in `T`.
    pub open spec fn grow_fits(self, radius: T) -> bool {
        T::fits(self@.right + radius.as_int()) && T::fits(self@.left - radius.as_int())
    }

    /// Moves both endpoints outward by `radius`, and hands the range back for
    /// further changes.
    pub fn grow(&mut self, radius: T) -> (r: &mut Self)
        requires
            old(self).grow_fits(radius),
        ensures
            r@ == old(self)@.spec_grow(radius.as_int()),
            *final(self) == *final(r),
    {
        self.right = self.right.add(radius);
        self.left = self.left.sub(radius);
        self
    }

    /// Whether the offset of `pos` from the range can be computed in `T`.
    pub open spec fn difference_to_point_fits(self, pos: T) -> bool {
        self@.spec_difference_to_point(pos.as_int()) matches Some(d) ==> T::fits(d)
    }

    /// The signed offset of `pos` from the endpoint nearest to it, or `None`
    /// if `pos` lies within the range.
    pub fn difference_to_point(&self, pos: T) -> (r: Option<T>)
        requires
            self.difference_to_point_fits(pos),
        ensures
            match r {
                Some(d) => self@.spec_difference_to_point(pos.as_int()) == Some(d.as_int()),
                None => self@.spec_difference_to_point(pos.as_int()) is None,
            },
    {
        if pos.lt(self.left) {
            Some(pos.sub(self.left))
        } else if self.right.lt(pos) {
            Some(pos.sub(self.right))
        } else {
            None
        }
    }
}

/// A range that contains a range that is not degenerate has that range as
/// its intersection with it.
pub proof fn lemma_intersection_of_contained(a: Range<int>, b: Range<int>)
    requires
        b.is_ordered(),
        a.spec_contains_range(b),
    ensures
        a.spec_get_intersection(b) == Some(b),
{
}

/// Where two ranges have an intersection, it begins at the larger of their
/// left endpoints, ends at the smaller of their right endpoints, is not
/// degenerate, and is contained in both.
pub proof fn lemma_intersection_is_contained(a: Range<int>, b: Range<int>)
    requires
        a.spec_get_intersection(b) is Some,
    ensures
        ({
            let c = a.spec_get_intersection(b).unwrap();
            &&& c.left == vstd::math::max(a.left, b.left)
            &&& c.right == vstd::math::min(a.right, b.right)
            &&& c.is_ordered()
            &&& a.spec_contains_range(c)
            &&& b.spec_contains_range(c)
        }),
{
}

/// Growing a range to fit a range that it already contains leaves it as it
/// was.
pub proof fn lemma_grow_to_fit_contained(a: Range<int>, b: Range<int>)
    requires
        a.spec_contains_range(b),
    ensures
        a.spec_grow_to_fit(b) == a,
{
}

/// Two ranges that are not degenerate have a point in common exactly when
/// they have an intersection, and exactly when the left endpoint of one lies
/// within the other.
pub proof fn lemma_intersects_iff_intersection(a: Range<int>, b: Range<int>)
    requires
        a.is_ordered(),
        b.is_ordered(),
    ensures
        a.spec_intersects(b) == a.spec_get_intersection(b).is_some(),
        a.spec_intersects(b) == (a.spec_contains(b.left) || b.spec_contains(a.left)),
{
}

/// After growing to fit, a range contains both what it was and what it was
/// grown to fit, where neither is degenerate.
pub proof fn lemma_grow_to_fit_covers(a: Range<int>, b: Range<int>)
    requires
        a.is_ordered(),
        b.is_ordered(),
    ensures
        a.spec_grow_to_fit(b).spec_contains_range(a),
        a.spec_grow_to_fit(b).spec_contains_range(b),
{
}

} // verus!
