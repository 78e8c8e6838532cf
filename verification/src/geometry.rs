//! Points and sizes in whole pixels.

use vstd::prelude::*;

verus! {

/// A position on screen.
#[derive(Clone, Copy, Debug, PartialEq, Eq, Structural)]
pub struct Point {
    pub x: i32,
    pub y: i32,
}

/// The extent of a widget.
#[derive(Clone, Copy, Debug, PartialEq, Eq, Structural)]
pub struct Size {
    pub w: i32,
    pub h: i32,
}

/// The top left corner.
pub open spec fn origin_point() -> Point {
    Point { x: 0, y: 0 }
}

/// The size of what takes no room.
pub open spec fn unsized_size() -> Size {
    Size { w: 0, h: 0 }
}

/// The point (0, 0).
pub fn make_origin_point() -> (p: Point)
    ensures
        p == origin_point(),
{
    Point { x: 0, y: 0 }
}

/// The size 0 by 0.
pub fn make_unsized() -> (s: Size)
    ensures
        s == unsized_size(),
{
    Size { w: 0, h: 0 }
}

} // verus!
