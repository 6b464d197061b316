use vstd::arithmetic::div_mod::{
    lemma_div_basics, lemma_div_by_multiple, lemma_div_is_ordered, lemma_div_pos_is_pos,
    lemma_fundamental_div_mod_converse,
};
use vstd::arithmetic::mul::lemma_mul_unary_negation;
use vstd::prelude::*;

verus! {

/// Complex-plane coordinates are fixed-point numbers: an `i64` holding the
/// coordinate times `SCALE`. `SCALE` is 2^24, so one unit of the plane is
/// 16777216 ticks; `HALF_SCALE` is `SCALE / 2`.
pub const SCALE: i64 = 16777216;

pub const HALF_SCALE: i64 = 8388608;

/// Division that truncates toward zero, the rounding the fixed-point
/// multiplication uses. (The `/` of spec arithmetic is Euclidean, which
/// differs on negative dividends.)
pub open spec fn tdiv(p: int, d: int) -> int
    recommends
        d > 0,
{
    if p >= 0 {
        p / d
    } else {
        -((-p) / d)
    }
}

/// Truncating division never grows a magnitude: a dividend within
/// `k * d` of zero gives a quotient within `k` of zero.
pub proof fn lemma_tdiv_bound(p: int, d: int, k: int)
    requires
        d > 0,
        k >= 0,
        -(k * d) <= p <= k * d,
    ensures
        -k <= tdiv(p, d) <= k,
{
    if p >= 0 {
        lemma_div_pos_is_pos(p, d);
        lemma_div_is_ordered(p, k * d, d);
        lemma_div_by_multiple(k, d);
    } else {
        lemma_div_pos_is_pos(-p, d);
        lemma_div_is_ordered(-p, k * d, d);
        lemma_div_by_multiple(k, d);
    }
}

/// On a nonnegative dividend, truncating division is plain Euclidean
/// division.
pub proof fn lemma_tdiv_nonneg(p: int, d: int)
    requires
        d > 0,
        p >= 0,
    ensures
        tdiv(p, d) == p / d,
        tdiv(p, d) >= 0,
{
    lemma_div_pos_is_pos(p, d);
}

/// The product of two magnitudes of at most 4 * SCALE stays within
/// 16 * SCALE * SCALE.
proof fn lemma_magnitude_product_bound(ma: int, mb: int)
    by (nonlinear_arith)
    requires
        0 <= ma <= 67108864,
        0 <= mb <= 67108864,
    ensures
        0 <= ma * mb <= 4503599627370496,
{
}

/// Fixed-point product of two coordinates: the full integer product,
/// scaled back down by `SCALE` with truncation toward zero.
pub fn fp_mul(a: i64, b: i64) -> (r: i64)
    requires
        -4 * (SCALE as int) <= a as int <= 4 * (SCALE as int),
        -4 * (SCALE as int) <= b as int <= 4 * (SCALE as int),
    ensures
        r as int == tdiv((a as int) * (b as int), SCALE as int),
        -16 * (SCALE as int) <= r as int <= 16 * (SCALE as int),
{
    let neg = (a < 0) != (b < 0);
    let ma: u64 = if a < 0 {
        (-a) as u64
    } else {
        a as u64
    };
    let mb: u64 = if b < 0 {
        (-b) as u64
    } else {
        b as u64
    };
    proof {
        lemma_magnitude_product_bound(ma as int, mb as int);
        lemma_mul_unary_negation(a as int, b as int);
        lemma_mul_unary_negation(-(a as int), b as int);
    }
    let q: u64 = (ma * mb) / (SCALE as u64);
    proof {
        lemma_div_pos_is_pos((ma as int) * (mb as int), SCALE as int);
        lemma_div_is_ordered((ma as int) * (mb as int), 4503599627370496, SCALE as int);
        lemma_fundamental_div_mod_converse(4503599627370496, SCALE as int, 268435456, 0);
        lemma_div_basics(SCALE as int);
    }
    if neg {
        -(q as i64)
    } else {
        q as i64
    }
}

} // verus!
