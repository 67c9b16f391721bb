//! A small geometry kernel: closed ranges, 2D vectors, rays, and what a ray
//! strikes when it is cast to a rectangle or a circle.
//!
//! Everything is generic over the scalar type. A scalar stands for an
//! integer (see [`num`]), and every contract is stated over those integers:
//! the model of a `Range<T>`, a `Vec2<T>`, a `Ray<T>` is the same value over
//! `int`.
pub mod cast;
pub mod circle;
mod ints;
pub mod num;
pub mod range;
pub mod ray;
pub mod rect;
pub mod vec2;

pub use crate::cast::CastFrom;
pub use crate::circle::Quadratic;
pub use crate::circle::QuadraticRoots;
pub use crate::num::Number;
pub use crate::num::Ordered;
pub use crate::num::SignedNumber;
pub use crate::range::Range;
pub use crate::ray::cast_to_range;
pub use crate::ray::CastResult;
pub use crate::ray::Ray;
pub use crate::rect::Rect;
pub use crate::vec2::arr2_as;
pub use crate::vec2::vec2;
pub use crate::vec2::vec2same;
pub use crate::vec2::Axis;
pub use crate::vec2::Vec2;
