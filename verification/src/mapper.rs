use crate::fixed::{HALF_SCALE, SCALE};
use vstd::arithmetic::div_mod::{
    lemma_div_pos_is_pos, lemma_fundamental_div_mod, lemma_mod_bound,
};
use vstd::arithmetic::mul::{lemma_mul_inequality, lemma_mul_is_commutative};
use vstd::prelude::*;

verus! {

/// The real coordinate sampled by pixel column `c` of a width-`w` image,
/// in ticks: (c / w) * 3.5 - 2.5 over the fixed view window, carried out
/// as one flooring division. 117440512 is 7 * SCALE, so the quotient is
/// 3.5 * SCALE * c / w; 41943040 is 2.5 * SCALE.
pub open spec fn pixel_re(c: int, w: int) -> int
    recommends
        0 <= c < w,
{
    (117440512 * c) / (2 * w) - 41943040
}

/// The imaginary coordinate sampled by pixel row `r` of a height-`h`
/// image, in ticks: (r / h) * 2.0 - 1.0, as one flooring division.
/// 33554432 is 2 * SCALE.
pub open spec fn pixel_im(r: int, h: int) -> int
    recommends
        0 <= r < h,
{
    (33554432 * r) / h - 16777216
}

/// A column strictly inside the image maps strictly below the right edge
/// of the view window: the scaled quotient stays under 3.5 * SCALE.
proof fn lemma_col_quotient_bound(c: int, w: int)
    requires
        0 <= c < w,
    ensures
        0 <= (117440512 * c) / (2 * w) < 58720256,
{
    let q = (117440512 * c) / (2 * w);
    lemma_div_pos_is_pos(117440512 * c, 2 * w);
    if q >= 58720256 {
        lemma_mul_inequality(58720256, q, 2 * w);
        lemma_mul_is_commutative(2 * w, q);
        lemma_fundamental_div_mod(117440512 * c, 2 * w);
        lemma_mod_bound(117440512 * c, 2 * w);
        assert(58720256 * (2 * w) == 117440512 * w);
        assert(117440512 * c >= 117440512 * w);
        assert(false);
    }
}

/// A row strictly inside the image maps strictly below the lower edge of
/// the view window: the scaled quotient stays under 2 * SCALE.
proof fn lemma_row_quotient_bound(r: int, h: int)
    requires
        0 <= r < h,
    ensures
        0 <= (33554432 * r) / h < 33554432,
{
    let q = (33554432 * r) / h;
    lemma_div_pos_is_pos(33554432 * r, h);
    if q >= 33554432 {
        lemma_mul_inequality(33554432, q, h);
        lemma_mul_is_commutative(h, q);
        lemma_fundamental_div_mod(33554432 * r, h);
        lemma_mod_bound(33554432 * r, h);
        assert(33554432 * r >= 33554432 * h);
        assert(false);
    }
}

/// Maps pixel column `c` of a width-`w` image to the real part of the
/// sampled point, which always lies in [-2.5, 1.0) of the view window.
pub fn map_col(c: u32, w: u32) -> (re: i64)
    requires
        c < w,
    ensures
        re as int == pixel_re(c as int, w as int),
        -5 * (HALF_SCALE as int) <= re as int,
        (re as int) < SCALE as int,
{
    proof {
        lemma_col_quotient_bound(c as int, w as int);
    }
    let q: u64 = (117440512u64 * (c as u64)) / (2u64 * (w as u64));
    (q as i64) - 5 * HALF_SCALE
}

/// Maps pixel row `r` of a height-`h` image to the imaginary part of the
/// sampled point, which always lies in [-1.0, 1.0) of the view window.
pub fn map_row(r: u32, h: u32) -> (im: i64)
    requires
        r < h,
    ensures
        im as int == pixel_im(r as int, h as int),
        -(SCALE as int) <= im as int,
        (im as int) < SCALE as int,
{
    proof {
        lemma_row_quotient_bound(r as int, h as int);
    }
    let q: u64 = (33554432u64 * (r as u64)) / (h as u64);
    (q as i64) - SCALE
}

} // verus!
