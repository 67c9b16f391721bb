//! Axis-aligned rectangles.
use crate::num::Ordered;
use crate::range::Range;
use crate::vec2::Axis;
use crate::vec2::Vec2;
use vstd::prelude::*;

verus! {

/// An axis-aligned rectangle, held as its extent on each axis.
#[derive(Copy, Clone, Debug, PartialEq, Eq)]
#[must_use]
pub struct Rect<N> {
    pub x: Range<N>,
    pub y: Range<N>,
}

impl<N: Ordered> View for Rect<N> {
    type V = Rect<int>;

    /// The rectangle of the integers that the endpoints stand for.
    open spec fn view(&self) -> Rect<int> {
        Rect { x: self.x@, y: self.y@ }
    }
}

impl<N> Rect<N> {
    /// The extent of the rectangle on `axis`.
    pub open spec fn spec_get_range(self, axis: Axis) -> Range<N> {
        match axis {
            Axis::X => self.x,
            Axis::Y => self.y,
        }
    }

    /// Get the extent of the rectangle on one axis.
    pub fn get_range(&self, axis: Axis) -> (r: &Range<N>)
        ensures
            *r == self.spec_get_range(axis),
    {
        match axis {
            Axis::X => &self.x,
            Axis::Y => &self.y,
        }
    }
}

impl Rect<int> {
    /// Whether the point lies in the rectangle or on its boundary.
    pub open spec fn spec_contains_point(self, point: Vec2<int>) -> bool {
        self.x.spec_contains(point.x) && self.y.spec_contains(point.y)
    }
}

impl<N: Ordered> Rect<N> {
    /// Returns true if the point lies in the rectangle or on its boundary.
    pub fn contains_point(&self, point: Vec2<N>) -> (r: bool)
        ensures
            r == self@.spec_contains_point(point@),
    {
        self.x.contains(point.x) && self.y.contains(point.y)
    }
}

} // verus!
