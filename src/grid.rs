use vstd::prelude::*;

verus! {

/// A decoded image flattened to 8-bit RGB: three bytes per pixel, row by row.
#[derive(Debug)]
pub struct PixelGrid {
    pub width: u32,
    pub height: u32,
    pub data: Vec<u8>,
}

/// Number of bytes of an RGB image of the given size.
pub open spec fn rgb_len(width: u32, height: u32) -> nat {
    3 * ((width as nat) * (height as nat))
}

/// Whether the working buffers of a resize from `width` x `height` to
/// `new_width` x `new_height` fit in this machine's address space.
pub open spec fn resize_fits(width: u32, height: u32, new_width: u32, new_height: u32) -> bool {
    16 * ((width as nat) * (new_height as nat)) <= isize::MAX && 16 * ((width as nat) * (
    height as nat)) <= isize::MAX && rgb_len(new_width, new_height) <= isize::MAX
}

/// The pixels that the triangle filter gives for `data`, an RGB image of
/// `width` x `height`, resampled to `new_width` x `new_height`.
pub uninterp spec fn resized_rgb(
    data: Seq<u8>,
    width: u32,
    height: u32,
    new_width: u32,
    new_height: u32,
) -> Seq<u8>;

impl PixelGrid {
    pub open spec fn wf(&self) -> bool {
        &&& self.width > 0
        &&& self.height > 0
        &&& self.data.len() == rgb_len(self.width, self.height)
    }

    pub open spec fn dims(&self) -> (u32, u32) {
        (self.width, self.height)
    }

    /// A grid of the given size over `data`, if `data` holds exactly three bytes per pixel
    /// and neither side is zero.
    pub fn new(width: u32, height: u32, data: Vec<u8>) -> (r: Option<PixelGrid>)
        ensures
            r is Some <==> (width > 0 && height > 0 && data.len() == rgb_len(width, height)),
            r matches Some(g) ==> g.width == width && g.height == height && g.data@ == data@
                && g.wf(),
    {
        assert((width as nat) * (height as nat) <= u64::MAX) by (nonlinear_arith)
            requires
                width <= u32::MAX,
                height <= u32::MAX,
        ;
        let pixels: u64 = (width as u64) * (height as u64);
        let n: u64 = data.len() as u64;
        if width > 0 && height > 0 && n % 3 == 0 && n / 3 == pixels {
            Some(PixelGrid { width, height, data })
        } else {
            None
        }
    }
}

/// Relies on image::RgbImage::from_raw, which accepts a buffer of at least three bytes
/// per pixel, and on image::imageops::resize with FilterType::Triangle, which returns an
/// image of exactly the requested size; its buffer is allocated by ImageBuffer::new, three
/// bytes per pixel. Its pixels depend on the input and the two sizes alone.
#[verifier::external_body]
pub(crate) fn resize_rgb(grid: PixelGrid, width: u32, height: u32) -> (r: PixelGrid)
    requires
        grid.wf(),
        width > 0,
        height > 0,
        resize_fits(grid.width, grid.height, width, height),
    ensures
        r.width == width,
        r.height == height,
        r.data@ == resized_rgb(grid.data@, grid.width, grid.height, width, height),
        r.data.len() == rgb_len(width, height),
{
    let source = image::RgbImage::from_raw(grid.width, grid.height, grid.data).unwrap();
    let out = image::imageops::resize(
        &source,
        width,
        height,
        image::imageops::FilterType::Triangle,
    );
    let (width, height) = out.dimensions();
    PixelGrid { width, height, data: out.into_raw() }
}

} // verus!
