use vstd::prelude::*;

verus! {

/// The size in pixels of a window surface or of a chain of images.
#[derive(Clone, Copy, Debug, PartialEq, Eq, Structural)]
pub struct Extent {
    pub width: u32,
    pub height: u32,
}

impl Extent {
    /// A surface with a zero dimension (a minimised window) has nothing to draw into.
    pub open spec fn is_zero_spec(self) -> bool {
        self.width == 0 || self.height == 0
    }

    pub fn new(width: u32, height: u32) -> (r: Extent)
        ensures
            r.width == width,
            r.height == height,
    {
        Extent { width, height }
    }

    pub fn is_zero(&self) -> (r: bool)
        ensures
            r == self.is_zero_spec(),
    {
        self.width == 0 || self.height == 0
    }
}

} // verus!
