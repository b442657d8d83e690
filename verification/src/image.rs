use vstd::prelude::*;

verus! {

/// One texel of a texture image: 8-bit RGB.
#[derive(Clone, Copy, Debug, PartialEq, Eq, Structural)]
pub struct Texel {
    pub red: u8,
    pub green: u8,
    pub blue: u8,
}

/// A decoded texture image: a row-major grid of texels whose row 0 is the
/// top of the picture. Lookups clamp both indices, so no query, however far
/// outside the unit square it started, reads out of bounds.
pub struct Image {
    width: u32,
    height: u32,
    texels: Vec<Texel>,
}

impl Image {
    /// Number of texel columns.
    pub closed spec fn width_spec(&self) -> int {
        self.width as int
    }

    /// Number of texel rows.
    pub closed spec fn height_spec(&self) -> int {
        self.height as int
    }

    /// The texel grid in row-major order.
    pub closed spec fn texels_spec(&self) -> Seq<Texel> {
        self.texels@
    }

    /// A well-formed image is at least one texel wide and high and holds
    /// exactly one texel per grid cell.
    pub closed spec fn wf(&self) -> bool {
        &&& 1 <= self.width
        &&& 1 <= self.height
        &&& self.texels@.len() == self.width as int * self.height as int
    }

    /// Wraps a decoded texel grid, or nothing when the dimensions are
    /// degenerate or do not match the grid.
    pub fn new(width: u32, height: u32, texels: Vec<Texel>) -> (r: Option<Image>)
        ensures
            r is Some <==> (1 <= width && 1 <= height && texels@.len() == width as int
                * height as int),
            r matches Some(img) ==> {
                &&& img.wf()
                &&& img.width_spec() == width
                &&& img.height_spec() == height
                &&& img.texels_spec() == texels@
            },
    {
        proof {
            assert(width as int * height as int <= 0xffff_ffffu64 * 0xffff_ffffu64)
                by (nonlinear_arith)
                requires
                    width <= 0xffff_ffffu64,
                    height <= 0xffff_ffffu64,
            ;
        }
        if width >= 1 && height >= 1 && (texels.len() as u64) == (width as u64) * (height as u64) {
            Some(Image { width, height, texels })
        } else {
            None
        }
    }

    /// Number of texel columns.
    pub fn width(&self) -> (r: u32)
        ensures
            r == self.width_spec(),
    {
        self.width
    }

    /// Number of texel rows.
    pub fn height(&self) -> (r: u32)
        ensures
            r == self.height_spec(),
    {
        self.height
    }

    /// The column a raw horizontal index falls on once clamped into the
    /// grid.
    pub open spec fn clamped_col(&self, iu: u32) -> int {
        if iu < self.width_spec() {
            iu as int
        } else {
            self.width_spec() - 1
        }
    }

    /// The row a raw flipped vertical index falls on: the lookup counts
    /// `jv` texels up from the bottom of the picture, clamped into the grid.
    pub open spec fn clamped_row(&self, jv: u32) -> int {
        if jv >= self.height_spec() {
            0
        } else if jv == 0 {
            self.height_spec() - 1
        } else {
            self.height_spec() - jv
        }
    }

    /// Looks the texel up that a texture query maps to. `iu` is the raw
    /// column index `u * width` and `jv` the raw bottom-up row index
    /// `v * height`, both already truncated to integers by the caller; each
    /// is clamped into the grid, so every query, with no exception, reads
    /// in bounds.
    pub fn texel(&self, iu: u32, jv: u32) -> (r: Texel)
        requires
            self.wf(),
        ensures
            0 <= self.clamped_col(iu) < self.width_spec(),
            0 <= self.clamped_row(jv) < self.height_spec(),
            r == self.texels_spec()[self.clamped_row(jv) * self.width_spec() + self.clamped_col(
                iu,
            )],
    {
        let i: u32 = if iu < self.width {
            iu
        } else {
            self.width - 1
        };
        let j: u32 = if jv >= self.height {
            0
        } else if jv == 0 {
            self.height - 1
        } else {
            self.height - jv
        };
        let total: usize = self.texels.len();
        proof {
            assert((j as int) * (self.width as int) + (i as int) < (self.height as int) * (
            self.width as int)) by (nonlinear_arith)
                requires
                    i < self.width,
                    j < self.height,
            ;
            assert((self.height as int) * (self.width as int) == (self.width as int) * (
            self.height as int)) by (nonlinear_arith);
        }
        let idx: usize = (j as usize) * (self.width as usize) + (i as usize);
        self.texels[idx]
    }
}

} // verus!
