//! Shared plain definitions.

use vstd::prelude::*;

verus! {

/// A width and height in pixels.
#[derive(Debug, PartialEq, Eq, Clone, Copy, Structural)]
pub struct Size {
    pub w: u32,
    pub h: u32,
}

impl Size {
    /// The size with the given width and height.
    pub fn new(w: u32, h: u32) -> (s: Size)
        ensures
            s.w == w,
            s.h == h,
    {
        Size { w, h }
    }
}

} // verus!
