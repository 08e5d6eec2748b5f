//! Geometry primitives that widgets report to the host.
use vstd::prelude::*;

verus! {

/// A point on the screen, in pixels.
#[derive(Clone, Copy, Debug, PartialEq, Eq, Structural)]
pub struct Point {
    pub x: i32,
    pub y: i32,
}

/// A width and height, in pixels.
#[derive(Clone, Copy, Debug, PartialEq, Eq, Structural)]
pub struct Size {
    pub w: i32,
    pub h: i32,
}

/// The point at the top left corner of the screen.
pub open spec fn origin_point() -> Point {
    Point { x: 0, y: 0 }
}

/// The size of something that takes no room at all.
pub open spec fn zero_size() -> Size {
    Size { w: 0, h: 0 }
}

/// Builds the origin point `0 x 0`.
pub fn make_origin_point() -> (r: Point)
    ensures
        r == origin_point(),
{
    Point { x: 0, y: 0 }
}

/// Builds the empty size `0 x 0`.
pub fn make_unsized() -> (r: Size)
    ensures
        r == zero_size(),
{
    Size { w: 0, h: 0 }
}

} // verus!
