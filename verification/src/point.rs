use vstd::prelude::*;

verus! {

/// Largest coordinate magnitude accepted by the exact orientation
/// predicates.  Keeping every coordinate within this range guarantees that
/// the 3x3 difference determinant fits comfortably in `i128` arithmetic.
pub const MAX_ORIENT_COORD: i64 = 1073741824;

/// A point of the plane with exact integer coordinates.
#[derive(Clone, Copy, PartialEq, Eq, Structural, Debug)]
pub struct Point2 {
    pub x: i64,
    pub y: i64,
}

impl Point2 {
    pub fn new(x: i64, y: i64) -> (p: Point2)
        ensures
            p == (Point2 { x, y }),
    {
        Point2 { x, y }
    }
}

/// A point of space with exact integer coordinates.
#[derive(Clone, Copy, PartialEq, Eq, Structural, Debug)]
pub struct Point3 {
    pub x: i64,
    pub y: i64,
    pub z: i64,
}

impl Point3 {
    pub fn new(x: i64, y: i64, z: i64) -> (p: Point3)
        ensures
            p == (Point3 { x, y, z }),
    {
        Point3 { x, y, z }
    }
}

/// Every coordinate of `p` lies within `limit` in magnitude.
pub open spec fn coords2_bounded(p: Point2, limit: int) -> bool {
    &&& -limit <= p.x <= limit
    &&& -limit <= p.y <= limit
}

/// Every coordinate of `p` lies within `limit` in magnitude.
pub open spec fn coords3_bounded(p: Point3, limit: int) -> bool {
    &&& -limit <= p.x <= limit
    &&& -limit <= p.y <= limit
    &&& -limit <= p.z <= limit
}

} // verus!
