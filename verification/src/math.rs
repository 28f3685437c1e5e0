//! Integer square root and acceleration magnitude.
//!
//! Sample coordinates are fixed-point integers in ten-thousandths of a
//! standard gravity; a magnitude is the floor of the Euclidean norm in
//! the same scale.

use vstd::prelude::*;

verus! {

/// Largest coordinate value accepted, in ten-thousandths of a gravity
/// (100_000 g: far beyond any physical accelerometer reading).
pub const COORD_MAX: i64 = 1_000_000_000;

/// Upper bound on every magnitude and on the detector baseline.
/// The sum of three squared coordinates is at most 3 * 10^18, whose
/// integer square root is below 2 * 10^9.
pub const MAG_MAX: u64 = 2_000_000_000;

/// Floor of the square root: the unique `r` with `r * r <= n < (r + 1) * (r + 1)`.
pub open spec fn spec_isqrt(n: nat) -> nat
    decreases n,
{
    if n == 0 {
        0
    } else {
        let r = spec_isqrt((n - 1) as nat);
        if (r + 1) * (r + 1) <= n {
            r + 1
        } else {
            r
        }
    }
}

pub proof fn lemma_isqrt_bounds(n: nat)
    ensures
        spec_isqrt(n) * spec_isqrt(n) <= n,
        n < (spec_isqrt(n) + 1) * (spec_isqrt(n) + 1),
    decreases n,
{
    if n == 0 {
        assert(n < (spec_isqrt(n) + 1) * (spec_isqrt(n) + 1)) by (nonlinear_arith)
            requires
                n == 0,
                spec_isqrt(n) == 0,
        ;
    } else {
        let r = spec_isqrt((n - 1) as nat);
        lemma_isqrt_bounds((n - 1) as nat);
        assert(r * r <= n - 1);
        assert(n - 1 < (r + 1) * (r + 1));
        if (r + 1) * (r + 1) <= n {
            assert(spec_isqrt(n) == r + 1);
            assert(n == (r + 1) * (r + 1));
            assert(n < (spec_isqrt(n) + 1) * (spec_isqrt(n) + 1)) by (nonlinear_arith)
                requires
                    spec_isqrt(n) == r + 1,
                    n == (r + 1) * (r + 1),
            ;
        } else {
            assert(spec_isqrt(n) == r);
            assert(n < (r + 1) * (r + 1));
        }
    }
}

pub proof fn lemma_isqrt_unique(n: nat, r: nat)
    requires
        r * r <= n,
        n < (r + 1) * (r + 1),
    ensures
        r == spec_isqrt(n),
{
    let s = spec_isqrt(n);
    lemma_isqrt_bounds(n);
    if r < s {
        assert((r + 1) * (r + 1) <= s * s) by (nonlinear_arith)
            requires
                r + 1 <= s,
        ;
    }
    if s < r {
        assert((s + 1) * (s + 1) <= r * r) by (nonlinear_arith)
            requires
                s + 1 <= r,
        ;
    }
}

/// Floor of the Euclidean norm of a coordinate triple.
pub open spec fn spec_magnitude(x: int, y: int, z: int) -> int {
    spec_isqrt((x * x + y * y + z * z) as nat) as int
}

/// Integer square root by binary search.
pub fn isqrt(n: u64) -> (r: u64)
    requires
        n <= 3_000_000_000_000_000_000,
    ensures
        r == spec_isqrt(n as nat),
        r < MAG_MAX,
{
    let mut lo: u64 = 0;
    let mut hi: u64 = 2_000_000_000;
    assert(hi * hi > n);
    while lo + 1 < hi
        invariant
            lo < hi <= 2_000_000_000,
            lo * lo <= n,
            n < hi * hi,
        decreases hi - lo,
    {
        let mid = lo + (hi - lo) / 2;
        assert(mid * mid <= 4_000_000_000_000_000_000) by (nonlinear_arith)
            requires
                mid <= 2_000_000_000,
        ;
        if mid * mid <= n {
            lo = mid;
        } else {
            hi = mid;
        }
    }
    proof {
        lemma_isqrt_unique(n as nat, lo as nat);
    }
    lo
}

/// Magnitude of an acceleration sample, in the fixed-point scale of its
/// coordinates.
pub fn magnitude(x: i64, y: i64, z: i64) -> (m: u64)
    requires
        -COORD_MAX <= x <= COORD_MAX,
        -COORD_MAX <= y <= COORD_MAX,
        -COORD_MAX <= z <= COORD_MAX,
    ensures
        m == spec_magnitude(x as int, y as int, z as int),
        m < MAG_MAX,
{
    proof {
        assert(0 <= x * x <= 1_000_000_000_000_000_000) by (nonlinear_arith)
            requires
                -1_000_000_000 <= x <= 1_000_000_000,
        ;
        assert(0 <= y * y <= 1_000_000_000_000_000_000) by (nonlinear_arith)
            requires
                -1_000_000_000 <= y <= 1_000_000_000,
        ;
        assert(0 <= z * z <= 1_000_000_000_000_000_000) by (nonlinear_arith)
            requires
                -1_000_000_000 <= z <= 1_000_000_000,
        ;
    }
    let sum: i64 = x * x + y * y + z * z;
    isqrt(sum as u64)
}

} // verus!
