use vstd::prelude::*;

verus! {

/// A width-by-height grid of RGB pixels, backed by an image::RgbImage.
/// Verus sees the buffer only through `image_pixels` and `image_dims`.
#[verifier::external_body]
pub struct Image {
    buffer: image::RgbImage,
}

/// The pixels an image holds: the channel triple stored at each
/// coordinate pair inside the image's dimensions.
pub uninterp spec fn image_pixels(img: Image) -> Map<(u32, u32), (u8, u8, u8)>;

/// The dimensions (width, height) an image was created with.
pub uninterp spec fn image_dims(img: Image) -> (u32, u32);

/// The coordinate pairs of a w-by-h pixel grid.
pub open spec fn grid_dom(w: u32, h: u32) -> Set<(u32, u32)> {
    Set::new(|p: (u32, u32)| p.0 < w && p.1 < h)
}

impl Image {
    /// Relies on image::RgbImage::new: a freshly allocated buffer of the
    /// given dimensions holding one pixel per grid coordinate, with every
    /// sample zero, i.e. all black. It panics only when 3 * w * h
    /// overflows usize, which the precondition rules out.
    #[verifier::external_body]
    pub(crate) fn new(w: u32, h: u32) -> (img: Image)
        requires
            3 * (w as int) * (h as int) <= usize::MAX as int,
        ensures
            image_dims(img) == (w, h),
            image_pixels(img).dom() == grid_dom(w, h),
            forall|c: u32, r: u32|
                c < w && r < h ==> image_pixels(img)[(c, r)] == (0u8, 0u8, 0u8),
    {
        Image { buffer: image::RgbImage::new(w, h) }
    }

    /// Relies on image::RgbImage::put_pixel: stores the given channel
    /// triple at (x, y) and leaves every other pixel and the dimensions
    /// unchanged. It panics only outside the dimensions, which the
    /// precondition rules out.
    #[verifier::external_body]
    pub(crate) fn put_pixel(&mut self, x: u32, y: u32, red: u8, green: u8, blue: u8)
        requires
            x < image_dims(*old(self)).0,
            y < image_dims(*old(self)).1,
        ensures
            image_dims(*final(self)) == image_dims(*old(self)),
            image_pixels(*final(self)) == image_pixels(*old(self)).insert(
                (x, y),
                (red, green, blue),
            ),
    {
        self.buffer.put_pixel(x, y, image::Rgb([red, green, blue]));
    }

    /// Relies on image::RgbImage::get_pixel: returns the channel triple
    /// stored at (x, y). It panics only outside the dimensions, which the
    /// precondition rules out.
    #[verifier::external_body]
    fn read_pixel(&self, x: u32, y: u32) -> (p: (u8, u8, u8))
        requires
            x < image_dims(*self).0,
            y < image_dims(*self).1,
        ensures
            p == image_pixels(*self)[(x, y)],
    {
        let q = self.buffer.get_pixel(x, y);
        (q.0[0], q.0[1], q.0[2])
    }

    /// The channel triple stored at (x, y).
    pub fn get_pixel(&self, x: u32, y: u32) -> (p: (u8, u8, u8))
        requires
            x < image_dims(*self).0,
            y < image_dims(*self).1,
        ensures
            p == image_pixels(*self)[(x, y)],
    {
        self.read_pixel(x, y)
    }

    /// Relies on image::RgbImage::into_raw: hands out the raw row-major
    /// RGB samples, three bytes per pixel, for persistence or display.
    /// Every image is allocated by `new`, so the buffer holds exactly
    /// width * height pixels.
    #[verifier::external_body]
    pub fn into_raw(self) -> (bytes: Vec<u8>)
        ensures
            bytes@.len() == 3 * (image_dims(self).0 as int) * (image_dims(self).1 as int),
    {
        self.buffer.into_raw()
    }
}

} // verus!
