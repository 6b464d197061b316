use crate::buffer::{grid_dom, image_dims, image_pixels, Image};
use crate::color::{get_color, intensity};
use crate::escape::{escape_count, escape_time};
use crate::fixed::{HALF_SCALE, SCALE};
use crate::mapper::{map_col, map_row, pixel_im, pixel_re};
use vstd::prelude::*;

verus! {

/// The grayscale triple the renderer stores at pixel (c, r) of a w-by-h
/// image under the iteration cap `max`: the escape time of the sampled
/// point, mapped to the same intensity on all three channels.
pub open spec fn pixel_color(c: u32, r: u32, w: u32, h: u32, max: u32) -> (u8, u8, u8) {
    let v = intensity(
        escape_count(pixel_re(c as int, w as int), pixel_im(r as int, h as int), max as nat),
        max as nat,
    );
    (v, v, v)
}

/// Renders the Mandelbrot set on a w-by-h pixel grid with the given
/// iteration cap: every pixel of the returned image holds the grayscale
/// value of the point it samples in the view window.
pub fn naive(w: u32, h: u32, max_itr: u32) -> (img: Image)
    requires
        max_itr > 0,
        3 * (w as int) * (h as int) <= usize::MAX as int,
    ensures
        image_dims(img) == (w, h),
        image_pixels(img).dom() == grid_dom(w, h),
        forall|c: u32, r: u32|
            c < w && r < h ==> image_pixels(img)[(c, r)] == pixel_color(c, r, w, h, max_itr),
{
    let mut img = Image::new(w, h);
    let mut c: u32 = 0;
    while c < w
        invariant
            max_itr > 0,
            c <= w,
            image_dims(img) == (w, h),
            image_pixels(img).dom() == grid_dom(w, h),
            forall|cc: u32, rr: u32|
                cc < c && rr < h ==> image_pixels(img)[(cc, rr)] == pixel_color(
                    cc,
                    rr,
                    w,
                    h,
                    max_itr,
                ),
        decreases w - c,
    {
        let x0 = map_col(c, w);
        let mut r: u32 = 0;
        while r < h
            invariant
                max_itr > 0,
                c < w,
                r <= h,
                x0 as int == pixel_re(c as int, w as int),
                -5 * (HALF_SCALE as int) <= x0 as int,
                (x0 as int) < SCALE as int,
                image_dims(img) == (w, h),
                image_pixels(img).dom() == grid_dom(w, h),
                forall|cc: u32, rr: u32|
                    cc < c && rr < h ==> image_pixels(img)[(cc, rr)] == pixel_color(
                        cc,
                        rr,
                        w,
                        h,
                        max_itr,
                    ),
                forall|rr: u32|
                    rr < r ==> image_pixels(img)[(c, rr)] == pixel_color(c, rr, w, h, max_itr),
            decreases h - r,
        {
            let y0 = map_row(r, h);
            let n = escape_time(x0, y0, max_itr);
            let (red, green, blue) = get_color(n, max_itr);
            img.put_pixel(c, r, red, green, blue);
            proof {
                assert(grid_dom(w, h).contains((c, r)));
                assert(image_pixels(img).dom() =~= grid_dom(w, h));
                assert((red, green, blue) == pixel_color(c, r, w, h, max_itr));
            }
            r = r + 1;
        }
        c = c + 1;
    }
    img
}

} // verus!
