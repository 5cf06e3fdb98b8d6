//! Pixel extents.

use vstd::prelude::*;

verus! {

/// A width and a height in pixels.
#[derive(Debug, Copy, Clone)]
pub struct RenderSize {
    pub width: usize,
    pub height: usize,
}

impl RenderSize {
    /// The extent `width` by `height`.
    pub fn new(width: usize, height: usize) -> (size: Self)
        ensures
            size.width == width,
            size.height == height,
    {
        RenderSize { width, height }
    }

    /// Whether this extent lies within `outer` on both axes.
    pub open spec fn fits_in(self, outer: RenderSize) -> bool {
        self.width <= outer.width && self.height <= outer.height
    }
}

} // verus!
