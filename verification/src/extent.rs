use vstd::prelude::*;

verus! {

/// Pixel dimensions of a window, a swapchain image, or a render target.
#[derive(Clone, Copy, PartialEq, Eq, Structural, Debug)]
pub struct Extent {
    pub width: u32,
    pub height: u32,
}

impl Extent {
    /// True when the extent covers no pixels, as a minimized window reports.
    pub open spec fn spec_is_zero_area(self) -> bool {
        self.width == 0 || self.height == 0
    }

    pub fn is_zero_area(&self) -> (r: bool)
        ensures
            r == self.spec_is_zero_area(),
    {
        self.width == 0 || self.height == 0
    }
}

} // verus!
