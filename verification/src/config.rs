use vstd::prelude::*;

verus! {

/// Dimensions and sampling parameters of the output image.
#[derive(Clone, Copy, Debug, PartialEq, Eq, Structural)]
pub struct ImageConfig {
    /// Number of pixel columns.
    pub width: u32,
    /// Number of pixel rows.
    pub height: u32,
    /// Monte-Carlo samples accumulated per pixel.
    pub samples_per_pixel: u32,
    /// Bounce budget of the light-transport recursion.
    pub max_depth: u32,
}

impl ImageConfig {
    /// Total number of pixels in the raster.
    pub fn pixel_count(&self) -> (r: u64)
        ensures
            r == self.width as u64 * self.height as u64,
    {
        proof {
            assert(self.width as u64 * self.height as u64 <= 0xffff_ffffu64 * 0xffff_ffffu64)
                by (nonlinear_arith)
                requires
                    self.width <= 0xffff_ffffu64,
                    self.height <= 0xffff_ffffu64,
            ;
        }
        self.width as u64 * self.height as u64
    }
}

} // verus!
