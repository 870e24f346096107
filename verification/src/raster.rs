use vstd::prelude::*;

verus! {

/// How the samples of one pixel are stored.
#[derive(Clone, Copy, Debug, PartialEq, Eq, Structural)]
pub enum PixelLayout {
    L8,
    La8,
    Rgb8,
    Rgba8,
    L16,
    La16,
    Rgb16,
    Rgba16,
    Rgb32F,
    Rgba32F,
}

impl PixelLayout {
    pub open spec fn spec_bytes_per_pixel(self) -> nat {
        match self {
            PixelLayout::L8 => 1,
            PixelLayout::La8 => 2,
            PixelLayout::Rgb8 => 3,
            PixelLayout::Rgba8 => 4,
            PixelLayout::L16 => 2,
            PixelLayout::La16 => 4,
            PixelLayout::Rgb16 => 6,
            PixelLayout::Rgba16 => 8,
            PixelLayout::Rgb32F => 12,
            PixelLayout::Rgba32F => 16,
        }
    }

    pub fn bytes_per_pixel(self) -> (n: usize)
        ensures
            n == self.spec_bytes_per_pixel(),
            1 <= n <= 16,
    {
        match self {
            PixelLayout::L8 => 1,
            PixelLayout::La8 => 2,
            PixelLayout::Rgb8 => 3,
            PixelLayout::Rgba8 => 4,
            PixelLayout::L16 => 2,
            PixelLayout::La16 => 4,
            PixelLayout::Rgb16 => 6,
            PixelLayout::Rgba16 => 8,
            PixelLayout::Rgb32F => 12,
            PixelLayout::Rgba32F => 16,
        }
    }
}

/// A pixel grid as plain values: the model of a decoded image.
///
/// `samples` holds the pixels row by row, each pixel in `layout`, every
/// sample in the byte order of the machine.
pub struct Raster {
    pub width: nat,
    pub height: nat,
    pub layout: PixelLayout,
    pub samples: Seq<u8>,
}

impl Raster {
    /// The samples fill the grid exactly.
    pub open spec fn wf(self) -> bool {
        &&& self.width <= u32::MAX
        &&& self.height <= u32::MAX
        &&& self.samples.len() == self.width * self.height * self.layout.spec_bytes_per_pixel()
    }

    pub open spec fn is_empty(self) -> bool {
        self.width == 0 || self.height == 0
    }
}

/// Whether the buffers that resampling from a source `source_width` wide to
/// `width` by `height` allocates can exist: the widest pixel takes 16 bytes,
/// and no allocation exceeds `isize::MAX` bytes.
pub open spec fn resample_fits(source_width: nat, width: nat, height: nat) -> bool {
    &&& source_width * height * 16 <= isize::MAX
    &&& width * height * 16 <= isize::MAX
}

proof fn lemma_area_bound(a: u32, b: u32)
    ensures
        a * b <= 0xFFFF_FFFE_0000_0001,
{
    assert(a * b <= 0xFFFF_FFFF * 0xFFFF_FFFF) by (nonlinear_arith)
        requires
            0 <= a <= 0xFFFF_FFFF,
            0 <= b <= 0xFFFF_FFFF,
    ;
}

fn area_fits(a: u32, b: u32) -> (r: bool)
    ensures
        r == (a * b * 16 <= isize::MAX),
{
    proof {
        lemma_area_bound(a, b);
    }
    let area: u64 = (a as u64) * (b as u64);
    let limit: u64 = (isize::MAX as u64) / 16;
    area <= limit
}

/// Whether a buffer of four bytes for each pixel of a `width` by `height`
/// grid can exist.
pub open spec fn rgba8_fits(width: nat, height: nat) -> bool {
    width * height * 4 <= isize::MAX
}

/// Decides `resample_fits` on machine integers.
pub fn check_resample_fits(source_width: u32, width: u32, height: u32) -> (r: bool)
    ensures
        r == resample_fits(source_width as nat, width as nat, height as nat),
{
    area_fits(source_width, height) && area_fits(width, height)
}

} // verus!
