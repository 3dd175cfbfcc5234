//! Vector shapes in fixed-point arithmetic: lines, rectangles, circles and
//! Bézier paths, the position and the tangent on their border, the part of a
//! path that a trace leaves, and the placement of a head on a border.
//!
//! Every number is a [`fixed::Fixed`], a signed fixed-point number with 32
//! fractional bits. A time is a share of a border: zero at its start, one at
//! its end. An angle is measured in turns, from the positive `x` axis towards
//! the positive `y` axis, or is given by a direction. Nothing here takes a
//! sine, a cosine or an arc tangent: a caller that wants an angle in radians,
//! or the matrix of a placement, computes it from the values given here.
//!
//! The contracts are stated over the functions of each module marked `spec`,
//! and [`laws`] proves what holds of them for every shape.

pub mod arrow;
pub mod bezpath;
pub mod circle;
pub mod fixed;
pub mod head;
pub mod laws;
pub mod line;
pub mod point;
pub mod prelude;
pub mod rect;
pub mod vector;
