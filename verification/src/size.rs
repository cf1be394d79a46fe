//! Physical pixel dimensions of a window.

use vstd::prelude::*;

verus! {

/// A size in physical pixels.
#[derive(Clone, Copy, Debug, PartialEq, Eq, Structural)]
pub struct PhysicalSize {
    pub width: u32,
    pub height: u32,
}

impl PhysicalSize {
    /// A size has an area when both of its dimensions are strictly positive.
    /// A surface can only be configured to such a size.
    pub open spec fn has_area(self) -> bool {
        self.width > 0 && self.height > 0
    }

    pub fn new(width: u32, height: u32) -> (size: PhysicalSize)
        ensures
            size == (PhysicalSize { width, height }),
    {
        PhysicalSize { width, height }
    }

    /// Whether a surface can be configured to this size.
    pub fn is_drawable(&self) -> (drawable: bool)
        ensures
            drawable == self.has_area(),
    {
        self.width > 0 && self.height > 0
    }
}

} // verus!
