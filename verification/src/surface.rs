//! Render-surface size bookkeeping shared by the GPU render targets: a
//! surface is never configured with a zero dimension.

use vstd::prelude::*;

verus! {

/// Physical-pixel size of a render surface.
#[derive(Debug, Clone, Copy, PartialEq, Eq, Structural)]
pub struct SurfaceSize {
    pub width: u32,
    pub height: u32,
}

impl SurfaceSize {
    /// Both dimensions are positive (what a GPU surface accepts).
    pub open spec fn valid(self) -> bool {
        self.width > 0 && self.height > 0
    }

    /// Apply a resize request. Zero dimensions are ignored (the GPU API
    /// rejects zero-sized configurations); otherwise the new size is taken
    /// and the caller must reconfigure its surface and target texture.
    /// Returns whether the size was taken.
    pub fn resize(&mut self, width: u32, height: u32) -> (taken: bool)
        ensures
            taken == (width != 0 && height != 0),
            taken ==> *final(self) == (SurfaceSize { width, height }),
            !taken ==> *final(self) == *old(self),
            old(self).valid() ==> final(self).valid(),
    {
        if width == 0 || height == 0 {
            return false;
        }
        self.width = width;
        self.height = height;
        true
    }

    /// Surface dimensions in physical pixels.
    pub fn dimensions(&self) -> (d: (u32, u32))
        ensures
            d == (self.width, self.height),
    {
        (self.width, self.height)
    }
}

} // verus!
