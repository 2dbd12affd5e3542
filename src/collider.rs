use vstd::prelude::*;
use crate::anchor::Point;

verus! {

/// Which collider variant a contour becomes.
#[derive(Clone, Copy, Debug, PartialEq, Eq, Structural)]
pub enum ColliderType {
    Polyline,
    ConvexPolyline,
    ConvexHull,
    Heightfield,
}

/// The collider produced from one contour.
#[derive(Debug)]
pub enum AbstractCollider {
    Polyline(Vec<Point>),
    ConvexPolyline(Vec<Point>),
    ConvexHull(Vec<Point>),
    /// Heights per column and the `(x, y)` scale.
    Heightfield(Vec<u32>, (u32, u32)),
}

} // verus!
