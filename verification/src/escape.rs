use crate::fixed::{fp_mul, lemma_tdiv_bound, lemma_tdiv_nonneg, tdiv, SCALE};
use vstd::arithmetic::div_mod::lemma_div_basics;
use vstd::prelude::*;

verus! {

/// Squared bailout radius in ticks squared: (2 * SCALE)^2. An orbit whose
/// squared magnitude exceeds this is guaranteed to diverge.
pub const BAILOUT: i64 = 4 * 16777216 * 16777216;

/// One Mandelbrot step of the real part: x*x - y*y + x0 in fixed point.
pub open spec fn step_re(x: int, y: int, x0: int) -> int {
    tdiv(x * x, SCALE as int) - tdiv(y * y, SCALE as int) + x0
}

/// One Mandelbrot step of the imaginary part: 2*x*y + y0 in fixed point.
pub open spec fn step_im(x: int, y: int, y0: int) -> int {
    tdiv(2 * x * y, SCALE as int) + y0
}

/// The orbit point (x, y) has left the bailout disc of radius 2.
pub open spec fn escaped(x: int, y: int) -> bool {
    x * x + y * y > BAILOUT as int
}

/// Completed iterations from orbit point (x, y) onward, with `fuel` steps
/// left under the cap: zero once the orbit has escaped or the cap is
/// reached, one more than the successor orbit point's count otherwise.
pub open spec fn escape_from(x: int, y: int, x0: int, y0: int, fuel: nat) -> nat
    decreases fuel,
{
    if escaped(x, y) || fuel == 0 {
        0
    } else {
        1 + escape_from(step_re(x, y, x0), step_im(x, y, y0), x0, y0, (fuel - 1) as nat)
    }
}

/// Iterations the point (x0, y0) takes to escape, capped at `max`: the
/// escape time of the Mandelbrot recurrence started at the origin.
pub open spec fn escape_count(x0: int, y0: int, max: nat) -> nat {
    escape_from(0, 0, x0, y0, max)
}

/// While an orbit point is still inside the bailout disc, its parts stay
/// within 2 * SCALE of zero and their products within the disc bound.
proof fn lemma_in_disc_bounds(x: int, y: int)
    by (nonlinear_arith)
    requires
        x * x + y * y <= 1125899906842624,
    ensures
        -33554432 <= x <= 33554432,
        -33554432 <= y <= 33554432,
        0 <= x * x <= 1125899906842624,
        0 <= y * y <= 1125899906842624,
        -1125899906842624 <= (2 * x) * y <= 1125899906842624,
{
}

/// A value within 8 * SCALE of zero has a square of at most (8 * SCALE)^2.
proof fn lemma_square_range(v: int)
    by (nonlinear_arith)
    requires
        -134217728 <= v <= 134217728,
    ensures
        0 <= v * v <= 18014398509481984,
{
}

/// Runs the escape-time iteration for the fixed-point point (x0, y0):
/// from the origin, squares and re-adds the point until the orbit leaves
/// the disc of radius 2 or `max_iterations` steps are done, and returns
/// how many steps were completed.
pub fn escape_time(x0: i64, y0: i64, max_iterations: u32) -> (n: u32)
    requires
        -4 * (SCALE as int) <= x0 as int <= 4 * (SCALE as int),
        -4 * (SCALE as int) <= y0 as int <= 4 * (SCALE as int),
    ensures
        n as nat == escape_count(x0 as int, y0 as int, max_iterations as nat),
        n <= max_iterations,
{
    let mut x: i64 = 0;
    let mut y: i64 = 0;
    let mut iteration: u32 = 0;
    while x * x + y * y <= BAILOUT && iteration < max_iterations
        invariant
            -4 * (SCALE as int) <= x0 as int <= 4 * (SCALE as int),
            -4 * (SCALE as int) <= y0 as int <= 4 * (SCALE as int),
            -134217728 <= x as int <= 134217728,
            -134217728 <= y as int <= 134217728,
            0 <= (x as int) * (x as int) <= 18014398509481984,
            0 <= (y as int) * (y as int) <= 18014398509481984,
            iteration <= max_iterations,
            escape_from(
                x as int,
                y as int,
                x0 as int,
                y0 as int,
                (max_iterations - iteration) as nat,
            ) + iteration == escape_count(x0 as int, y0 as int, max_iterations as nat),
        decreases max_iterations - iteration,
    {
        proof {
            lemma_in_disc_bounds(x as int, y as int);
        }
        let xx = fp_mul(x, x);
        let yy = fp_mul(y, y);
        let xy2 = fp_mul(2 * x, y);
        proof {
            lemma_tdiv_nonneg((x as int) * (x as int), SCALE as int);
            lemma_tdiv_nonneg((y as int) * (y as int), SCALE as int);
            lemma_tdiv_bound((x as int) * (x as int), SCALE as int, 67108864);
            lemma_tdiv_bound((y as int) * (y as int), SCALE as int, 67108864);
            lemma_tdiv_bound((2 * (x as int)) * (y as int), SCALE as int, 67108864);
        }
        let x_next = xx - yy + x0;
        let y_next = xy2 + y0;
        proof {
            assert(x_next as int == step_re(x as int, y as int, x0 as int));
            assert(y_next as int == step_im(x as int, y as int, y0 as int));
            lemma_square_range(x_next as int);
            lemma_square_range(y_next as int);
        }
        x = x_next;
        y = y_next;
        iteration = iteration + 1;
    }
    iteration
}

/// A point already outside the bailout disc still costs one step: the
/// orbit starts at the origin, inside the disc, and only the first
/// iteration moves it onto the point itself, where the test then fails.
pub proof fn lemma_far_point_escapes_at_once(x0: int, y0: int, max: nat)
    requires
        escaped(x0, y0),
        max >= 1,
    ensures
        escape_count(x0, y0, max) == 1,
{
    lemma_div_basics(SCALE as int);
    assert(step_re(0, 0, x0) == x0);
    assert(step_im(0, 0, y0) == y0);
    assert(escape_from(x0, y0, x0, y0, (max - 1) as nat) == 0);
}

/// The origin is in the Mandelbrot set: its orbit never moves, so the
/// evaluator always runs to the cap and returns exactly `max`.
pub proof fn lemma_origin_never_escapes(max: nat)
    ensures
        escape_count(0, 0, max) == max,
    decreases max,
{
    lemma_div_basics(SCALE as int);
    if max > 0 {
        assert(step_re(0, 0, 0) == 0);
        assert(step_im(0, 0, 0) == 0);
        lemma_origin_never_escapes((max - 1) as nat);
    }
}

} // verus!
