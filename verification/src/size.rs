use vstd::prelude::*;

verus! {

/// Width and height of a window or surface, in physical pixels.
#[derive(Clone, Copy, Debug, PartialEq, Eq, Structural)]
pub struct WindowSize {
    pub width: u32,
    pub height: u32,
}

impl WindowSize {
    /// True when both dimensions are non-zero, i.e. the surface has
    /// drawable area.
    pub open spec fn spec_is_positive(self) -> bool {
        self.width > 0 && self.height > 0
    }

    /// The same size with each zero dimension raised to one pixel, the
    /// smallest extent a surface can be configured with.
    pub open spec fn spec_clamped(self) -> WindowSize {
        WindowSize {
            width: if self.width == 0 { 1u32 } else { self.width },
            height: if self.height == 0 { 1u32 } else { self.height },
        }
    }

    pub fn new(width: u32, height: u32) -> (s: WindowSize)
        ensures
            s == (WindowSize { width, height }),
    {
        WindowSize { width, height }
    }

    pub fn is_positive(&self) -> (r: bool)
        ensures
            r == self.spec_is_positive(),
    {
        self.width > 0 && self.height > 0
    }

    pub fn clamped(&self) -> (s: WindowSize)
        ensures
            s == self.spec_clamped(),
    {
        WindowSize {
            width: if self.width == 0 { 1 } else { self.width },
            height: if self.height == 0 { 1 } else { self.height },
        }
    }
}

} // verus!
