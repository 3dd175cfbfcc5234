//! The items that most users of the crate need.

pub use crate::bezpath::{BezPath, PathEl, PathSeg, VelloBezPath};
pub use crate::circle::VelloCircle;
pub use crate::fixed::Fixed;
pub use crate::head::{Head, HeadBundle, HeadTransform, HeadVector};
pub use crate::line::VelloLine;
pub use crate::point::{Direction, Point, Rotation};
pub use crate::rect::VelloRect;
pub use crate::vector::{Shape, Vector};
