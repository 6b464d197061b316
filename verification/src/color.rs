use vstd::arithmetic::div_mod::{lemma_div_is_ordered, lemma_fundamental_div_mod_converse};
use vstd::prelude::*;

verus! {

/// Grayscale intensity for the iteration count `i` under the cap `max`.
///
/// An out-of-range count maps defensively to full white. At the
/// conventional cap of 255 the count itself is the intensity, so that no
/// rounding touches the common configuration. Otherwise the count is
/// scaled to [0, 255] and rounded to the nearest integer, halves rounding
/// up: round(255 * i / max) == (510 * i + max) / (2 * max) in integers.
pub open spec fn intensity(i: nat, max: nat) -> u8
    recommends
        max > 0,
{
    if i > max {
        255u8
    } else if max == 255 {
        i as u8
    } else {
        ((510 * i + max) / (2 * max)) as u8
    }
}

/// Maps an iteration count to a grayscale pixel: the same intensity on
/// all three channels.
pub fn get_color(i: u32, max_iterations: u32) -> (rgb: (u8, u8, u8))
    requires
        max_iterations > 0,
    ensures
        rgb.0 == intensity(i as nat, max_iterations as nat),
        rgb.1 == rgb.0,
        rgb.2 == rgb.0,
{
    if i > max_iterations {
        (255, 255, 255)
    } else if max_iterations == 255 {
        let v = i as u8;
        (v, v, v)
    } else {
        let num: u64 = 510u64 * (i as u64) + (max_iterations as u64);
        let den: u64 = 2u64 * (max_iterations as u64);
        proof {
            lemma_scaled_count_fits(i as nat, max_iterations as nat);
        }
        let v = (num / den) as u8;
        (v, v, v)
    }
}

/// The scaled and rounded intensity of an in-range count never exceeds 255.
proof fn lemma_scaled_count_fits(i: nat, max: nat)
    requires
        0 < max,
        i <= max,
    ensures
        0 <= (510 * i + max) / (2 * max) <= 255,
{
    lemma_fundamental_div_mod_converse(511 * (max as int), 2 * (max as int), 255, max as int);
    lemma_div_is_ordered(510 * (i as int) + max, 511 * (max as int), 2 * (max as int));
}

/// An out-of-range iteration count is always painted full white,
/// whatever the cap.
pub proof fn lemma_out_of_range_is_white(i: nat, max: nat)
    requires
        i > max,
    ensures
        intensity(i, max) == 255,
{
}

} // verus!
