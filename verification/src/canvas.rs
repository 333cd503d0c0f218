//! The canvas: an RGBA raster held by the `image` crate's buffer.
//!
//! The buffer itself is outside code; its contents and dimensions are given
//! names, and every method that the compositor calls states over those names
//! what the `image` crate's source shows.

use vstd::prelude::*;

verus! {

/// A 2-D RGBA raster, origin top-left. Wraps `image::RgbaImage`, which Verus
/// does not read; `canvas_pixels` and `canvas_dims` name what it holds.
#[verifier::external_body]
pub struct Canvas {
    img: image::RgbaImage,
}

/// The pixels the canvas holds: a map from (x, y) to the (r, g, b, a)
/// channels stored there. Its domain is the full width x height rectangle.
pub uninterp spec fn canvas_pixels(c: Canvas) -> Map<(int, int), (u8, u8, u8, u8)>;

/// The (width, height) the canvas was created with.
pub uninterp spec fn canvas_dims(c: Canvas) -> (u32, u32);

/// The pixel map of a fully transparent raster of the given dimensions.
pub open spec fn blank_pixels(width: u32, height: u32) -> Map<(int, int), (u8, u8, u8, u8)> {
    Map::new(
        |p: (int, int)| 0 <= p.0 < width && 0 <= p.1 < height,
        |p: (int, int)| (0u8, 0u8, 0u8, 0u8),
    )
}

impl Canvas {
    /// Relies on `image::ImageBuffer::new`: the buffer has the given
    /// dimensions and every pixel zeroed, i.e. fully transparent. `new`
    /// panics only when the byte length `4 * width * height` overflows
    /// `usize`, which the precondition rules out.
    #[verifier::external_body]
    pub fn new(width: u32, height: u32) -> (c: Canvas)
        requires
            4 * (width as int) * (height as int) <= u32::MAX,
        ensures
            canvas_dims(c) == (width, height),
            canvas_pixels(c) == blank_pixels(width, height),
    {
        Canvas { img: image::RgbaImage::new(width, height) }
    }

    /// Relies on `image::ImageBuffer::width`.
    #[verifier::external_body]
    pub fn width(&self) -> (r: u32)
        ensures
            r == canvas_dims(*self).0,
    {
        self.img.width()
    }

    /// Relies on `image::ImageBuffer::height`.
    #[verifier::external_body]
    pub fn height(&self) -> (r: u32)
        ensures
            r == canvas_dims(*self).1,
    {
        self.img.height()
    }

    /// Relies on `image::ImageBuffer::put_pixel`: overwrites the four
    /// channels stored at (x, y) and nothing else. `put_pixel` panics out of
    /// bounds, which the precondition rules out.
    #[verifier::external_body]
    pub fn put(&mut self, x: u32, y: u32, pixel: (u8, u8, u8, u8))
        requires
            x < canvas_dims(*old(self)).0,
            y < canvas_dims(*old(self)).1,
        ensures
            canvas_dims(*final(self)) == canvas_dims(*old(self)),
            canvas_pixels(*final(self)) == canvas_pixels(*old(self)).insert(
                (x as int, y as int),
                pixel,
            ),
    {
        self.img.put_pixel(x, y, image::Rgba([pixel.0, pixel.1, pixel.2, pixel.3]));
    }

    /// Relies on `image::ImageBuffer::get_pixel`: returns the four channels
    /// stored at (x, y). `get_pixel` panics out of bounds, which the
    /// precondition rules out.
    #[verifier::external_body]
    pub fn get(&self, x: u32, y: u32) -> (r: (u8, u8, u8, u8))
        requires
            x < canvas_dims(*self).0,
            y < canvas_dims(*self).1,
        ensures
            r == canvas_pixels(*self)[(x as int, y as int)],
    {
        let p = self.img.get_pixel(x, y);
        (p.0[0], p.0[1], p.0[2], p.0[3])
    }
}

} // verus!
