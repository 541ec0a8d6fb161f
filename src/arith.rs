use vstd::arithmetic::div_mod::{lemma_div_is_ordered, lemma_fundamental_div_mod_converse};
use vstd::prelude::*;

verus! {

/// `n / d` rounded to the nearest integer, halves rounded up
/// (meaningful for `n >= 0` and `d > 0`).
pub open spec fn round_div(n: int, d: int) -> int {
    (2 * n + d) / (2 * d)
}

/// `x` limited to the range `lo..=hi`.
pub open spec fn clamp(x: int, lo: int, hi: int) -> int {
    if x < lo {
        lo
    } else if x > hi {
        hi
    } else {
        x
    }
}

/// Rounding an exact multiple gives the quotient back.
pub proof fn lemma_round_div_exact(c: int, d: int)
    requires
        0 <= c,
        0 < d,
    ensures
        round_div(c * d, d) == c,
{
    assert(2 * (c * d) + d == c * (2 * d) + d) by (nonlinear_arith);
    lemma_fundamental_div_mod_converse(2 * (c * d) + d, 2 * d, c, d);
}

/// A quotient of at most `hi` (with `n >= 0`) rounds into `0..=hi`.
pub proof fn lemma_round_div_bounds(n: int, d: int, hi: int)
    requires
        0 <= n <= hi * d,
        0 < d,
        0 <= hi,
    ensures
        0 <= round_div(n, d) <= hi,
{
    assert(2 * (hi * d) + d == hi * (2 * d) + d) by (nonlinear_arith);
    lemma_fundamental_div_mod_converse(2 * (hi * d) + d, 2 * d, hi, d);
    lemma_div_is_ordered(2 * n + d, 2 * (hi * d) + d, 2 * d);
    lemma_div_is_ordered(0, 2 * n + d, 2 * d);
}

} // verus!
