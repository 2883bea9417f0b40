//! The window's drawable dimensions, shared with the render systems.

use vstd::prelude::*;
use crate::def::Size;

verus! {

/// Width and height of the drawable screen area, in pixels.
#[derive(Debug, PartialEq, Eq, Clone, Copy, Structural)]
pub struct ScreenDimension {
    pub w: u32,
    pub h: u32,
}

impl ScreenDimension {
    /// The dimension with the given width and height.
    pub fn new(w: u32, h: u32) -> (s: ScreenDimension)
        ensures
            s.w == w,
            s.h == h,
    {
        ScreenDimension { w, h }
    }
}

impl From<Size> for ScreenDimension {
    /// The same extent, viewed as a screen dimension.
    fn from(s: Size) -> (r: ScreenDimension) {
        ScreenDimension { w: s.w, h: s.h }
    }
}

impl vstd::std_specs::convert::FromSpecImpl<Size> for ScreenDimension {
    open spec fn obeys_from_spec() -> bool {
        true
    }

    open spec fn from_spec(s: Size) -> ScreenDimension {
        ScreenDimension { w: s.w, h: s.h }
    }
}

impl From<ScreenDimension> for Size {
    /// The same extent, viewed as a plain size.
    fn from(s: ScreenDimension) -> (r: Size) {
        Size { w: s.w, h: s.h }
    }
}

impl vstd::std_specs::convert::FromSpecImpl<ScreenDimension> for Size {
    open spec fn obeys_from_spec() -> bool {
        true
    }

    open spec fn from_spec(s: ScreenDimension) -> Size {
        Size { w: s.w, h: s.h }
    }
}

} // verus!
