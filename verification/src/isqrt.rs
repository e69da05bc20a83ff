//! Integer square roots, exact where the radicand is a perfect square.

use vstd::prelude::*;

use crate::vec2::lemma_mul_abs_bound;

verus! {

/// The floor of the square root of `n` (zero for negative `n`).
pub open spec fn isqrt(n: int) -> int
    decreases n,
{
    if n <= 0 {
        0
    } else {
        let r = isqrt(n - 1);
        if (r + 1) * (r + 1) <= n {
            r + 1
        } else {
            r
        }
    }
}

/// [`isqrt`] is the unique nonnegative integer whose square is at most `n`
/// while the next square is beyond it.
pub proof fn lemma_isqrt_bounds(n: int)
    requires
        n >= 0,
    ensures
        0 <= isqrt(n),
        isqrt(n) * isqrt(n) <= n,
        n < (isqrt(n) + 1) * (isqrt(n) + 1),
    decreases n,
{
    if n > 0 {
        lemma_isqrt_bounds(n - 1);
        let r = isqrt(n - 1);
        if (r + 1) * (r + 1) <= n {
            assert((r + 2) * (r + 2) == (r + 1) * (r + 1) + 2 * r + 3) by (nonlinear_arith);
        }
    }
}

/// Any value within the two square bounds is the square root.
pub proof fn lemma_isqrt_unique(n: int, l: int)
    requires
        n >= 0,
        0 <= l,
        l * l <= n,
        n < (l + 1) * (l + 1),
    ensures
        l == isqrt(n),
{
    lemma_isqrt_bounds(n);
    let r = isqrt(n);
    if l < r {
        assert((l + 1) * (l + 1) <= r * r) by (nonlinear_arith)
            requires
                0 <= l,
                l + 1 <= r,
        ;
    }
    if r < l {
        assert((r + 1) * (r + 1) <= l * l) by (nonlinear_arith)
            requires
                0 <= r,
                r + 1 <= l,
        ;
    }
}

/// Compute the floor square root by bisection.
pub fn isqrt_i64(n: i64) -> (r: i64)
    requires
        0 <= n,
    ensures
        r as int == isqrt(n as int),
        0 <= r,
        r * r <= n,
        n < (r + 1) * (r + 1),
{
    let mut lo: i64 = 0;
    let mut hi: i64 = 3_037_000_500;
    proof {
        assert((3_037_000_500 as int) * (3_037_000_500 as int) > i64::MAX) by (nonlinear_arith);
    }
    while lo + 1 < hi
        invariant
            0 <= lo < hi <= 3_037_000_500,
            0 <= n,
            (lo as int) * (lo as int) <= n as int,
            (n as int) < (hi as int) * (hi as int),
        decreases hi - lo,
    {
        let mid = lo + (hi - lo) / 2;
        proof {
            lemma_mul_abs_bound(mid as int, 3_037_000_499, mid as int, 3_037_000_499);
            assert((3_037_000_499 as int) * (3_037_000_499 as int) < i64::MAX) by (nonlinear_arith);
        }
        let sq = mid * mid;
        if sq <= n {
            lo = mid;
        } else {
            hi = mid;
        }
    }
    proof {
        lemma_isqrt_unique(n as int, lo as int);
    }
    lo
}

} // verus!
