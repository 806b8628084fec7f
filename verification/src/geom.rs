//! Window geometry as the engine tracks it.

use vstd::prelude::*;

verus! {

/// Outer geometry of a window: position of the top-left corner and size.
///
/// Positions are signed (a window may sit partly or fully off-screen);
/// sizes are unsigned and a well-formed geometry is never degenerate:
/// both dimensions are at least one pixel.
#[derive(Clone, Copy, PartialEq, Eq, Structural, Debug)]
pub struct Geometry {
    pub x: i32,
    pub y: i32,
    pub w: u32,
    pub h: u32,
}

impl Geometry {
    /// A geometry is well formed when neither dimension is degenerate.
    pub open spec fn wf(self) -> bool {
        self.w >= 1 && self.h >= 1
    }

    pub fn new(x: i32, y: i32, w: u32, h: u32) -> (r: Geometry)
        requires
            w >= 1,
            h >= 1,
        ensures
            r == (Geometry { x, y, w, h }),
            r.wf(),
    {
        Geometry { x, y, w, h }
    }
}

} // verus!
