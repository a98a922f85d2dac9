//! Trusted wrapper around the outside RGBA image buffer: an opaque type
//! holding the buffer, names for its dimensions and stored pixels, and the
//! calls the scan engine makes into it.

use vstd::prelude::*;

use image::{ImageBuffer, Rgba};

verus! {

/// An 8-bit RGBA raster image, backed by the outside image buffer. Opaque
/// to verification: what the contracts say about it goes through
/// `img_dims` and `img_pixels`.
#[verifier::external_body]
pub struct RgbaBuffer {
    buf: ImageBuffer<Rgba<u8>, Vec<u8>>,
}

/// The `(width, height)` the buffer was created with.
pub uninterp spec fn img_dims(img: RgbaBuffer) -> (u32, u32);

/// The RGBA channels of the pixel stored at each in-bounds coordinate.
pub uninterp spec fn img_pixels(img: RgbaBuffer) -> Map<(int, int), (u8, u8, u8, u8)>;

impl RgbaBuffer {
    /// Relies on `ImageBuffer::from_raw`: construction succeeds exactly
    /// when the container holds at least `4 * width * height` bytes (a
    /// requirement whose computation never overflows in the source), and
    /// the pixel at `(x, y)` is then the four bytes starting at
    /// `(y * width + x) * 4`, in RGBA order.
    #[verifier::external_body]
    pub fn from_raw(width: u32, height: u32, data: Vec<u8>) -> (r: Option<RgbaBuffer>)
        ensures
            match r {
                Some(img) => img_dims(img) == (width, height) && data@.len() >= 4 * width * height
                    && forall|x: int, y: int|
                    0 <= x < width && 0 <= y < height ==> #[trigger] img_pixels(img)[(x, y)] == (
                        data@[(y * width + x) * 4],
                        data@[(y * width + x) * 4 + 1],
                        data@[(y * width + x) * 4 + 2],
                        data@[(y * width + x) * 4 + 3],
                    ),
                None => data@.len() < 4 * width * height,
            },
    {
        match ImageBuffer::from_raw(width, height, data) {
            Some(buf) => Some(RgbaBuffer { buf }),
            None => None,
        }
    }

    /// Relies on `ImageBuffer::width`: the width the buffer was created
    /// with.
    #[verifier::external_body]
    pub fn width(&self) -> (r: u32)
        ensures
            r == img_dims(*self).0,
    {
        self.buf.width()
    }

    /// Relies on `ImageBuffer::height`: the height the buffer was created
    /// with.
    #[verifier::external_body]
    pub fn height(&self) -> (r: u32)
        ensures
            r == img_dims(*self).1,
    {
        self.buf.height()
    }

    /// Relies on `ImageBuffer::get_pixel`: the call returns normally on
    /// every in-bounds coordinate (it panics only when `x >= width` or
    /// `y >= height`), handing back the four channels of the stored pixel
    /// in RGBA order.
    #[verifier::external_body]
    pub(crate) fn read_pixel(&self, x: u32, y: u32) -> (r: (u8, u8, u8, u8))
        requires
            x < img_dims(*self).0,
            y < img_dims(*self).1,
        ensures
            r == img_pixels(*self)[(x as int, y as int)],
    {
        let p = self.buf.get_pixel(x, y);
        (p.0[0], p.0[1], p.0[2], p.0[3])
    }
}

} // verus!
