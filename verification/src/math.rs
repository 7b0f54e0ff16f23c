//! Fixed-point arithmetic helpers for the control path: truncating
//! division, clamping, integer square root and a millidegree
//! arctangent approximation.

use vstd::prelude::*;

verus! {

/// Integer division truncating towards zero, as the machine division
/// operator does.
pub open spec fn to_zero_div(a: int, b: int) -> int {
    if a >= 0 {
        a / b
    } else {
        -((-a) / b)
    }
}

/// `v` clamped into `-limit ..= limit`.
pub open spec fn clamp_mag(v: int, limit: int) -> int {
    if v > limit {
        limit
    } else if v < -limit {
        -limit
    } else {
        v
    }
}

/// Floor square root: the greatest integer whose square does not exceed
/// `x`.
pub open spec fn sqrt_floor(x: nat) -> nat
    decreases x,
{
    if x == 0 {
        0
    } else {
        let r = sqrt_floor((x - 1) as nat);
        if (r + 1) * (r + 1) <= x {
            r + 1
        } else {
            r
        }
    }
}

/// `sqrt_floor` is bracketed by the squares around its argument.
pub proof fn lemma_sqrt_floor_bounds(x: nat)
    ensures
        sqrt_floor(x) * sqrt_floor(x) <= x,
        x < (sqrt_floor(x) + 1) * (sqrt_floor(x) + 1),
    decreases x,
{
    if x == 0 {
        let s = sqrt_floor(x);
        assert(s == 0);
        assert((s + 1) * (s + 1) == 1) by (nonlinear_arith)
            requires
                s == 0,
        ;
    } else {
        lemma_sqrt_floor_bounds((x - 1) as nat);
        let r = sqrt_floor((x - 1) as nat);
        assert(r * r <= x - 1);
        assert(x - 1 < (r + 1) * (r + 1));
        if (r + 1) * (r + 1) <= x {
            assert(sqrt_floor(x) == r + 1);
            assert(x == (r + 1) * (r + 1));
            assert((r + 1) * (r + 1) < (r + 2) * (r + 2)) by (nonlinear_arith);
            assert(sqrt_floor(x) * sqrt_floor(x) <= x);
            assert(x < (sqrt_floor(x) + 1) * (sqrt_floor(x) + 1));
        } else {
            assert(sqrt_floor(x) == r);
            assert(sqrt_floor(x) * sqrt_floor(x) <= x);
            assert(x < (sqrt_floor(x) + 1) * (sqrt_floor(x) + 1));
        }
    }
}

/// Any value bracketed by the squares around `x` is `sqrt_floor(x)`.
pub proof fn lemma_sqrt_floor_unique(x: nat, r: nat)
    requires
        r * r <= x,
        x < (r + 1) * (r + 1),
    ensures
        r == sqrt_floor(x),
{
    lemma_sqrt_floor_bounds(x);
    let s = sqrt_floor(x);
    if r < s {
        assert((r + 1) * (r + 1) <= s * s) by (nonlinear_arith)
            requires
                r + 1 <= s,
        ;
    } else if s < r {
        assert((s + 1) * (s + 1) <= r * r) by (nonlinear_arith)
            requires
                s + 1 <= r,
        ;
    }
}

/// Divide by a positive divisor, truncating towards zero.
pub fn div_to_zero(a: i64, b: u64) -> (r: i64)
    requires
        b > 0,
        a > i64::MIN,
    ensures
        r == to_zero_div(a as int, b as int),
{
    if a >= 0 {
        let q = (a as u64) / b;
        assert(q <= a as u64);
        q as i64
    } else {
        let m = (-a) as u64;
        let q = m / b;
        assert(q <= m);
        -(q as i64)
    }
}

/// Clamp `v` into `-limit ..= limit`.
pub fn clamp_to(v: i64, limit: i64) -> (r: i64)
    requires
        limit > 0,
    ensures
        r == clamp_mag(v as int, limit as int),
        -limit <= r <= limit,
{
    if v > limit {
        limit
    } else if v < -limit {
        -limit
    } else {
        v
    }
}

/// Floor square root of a machine word.
pub fn isqrt(x: u64) -> (r: u64)
    ensures
        r == sqrt_floor(x as nat),
        r * r <= x,
        x < (r + 1) * (r + 1),
{
    let mut lo: u64 = 0;
    let mut hi: u64 = 4294967296;
    assert((hi as int) * (hi as int) > x as int) by (nonlinear_arith)
        requires
            hi == 4294967296u64,
            x <= u64::MAX,
    ;
    while hi - lo > 1
        invariant
            lo < hi <= 4294967296,
            (lo as int) * (lo as int) <= x as int,
            (x as int) < (hi as int) * (hi as int),
        decreases hi - lo,
    {
        let mid = lo + (hi - lo) / 2;
        assert(lo < mid < hi);
        assert((mid as int) * (mid as int) <= 0x1_0000_0000 * 0x1_0000_0000) by (nonlinear_arith)
            requires
                0 <= mid <= 0x1_0000_0000,
        ;
        if ((mid as u128) * (mid as u128)) <= (x as u128) {
            lo = mid;
        } else {
            hi = mid;
        }
    }
    proof {
        lemma_sqrt_floor_unique(x as nat, lo as nat);
    }
    lo
}

/// Millidegree arctangent of the ratio `n / d`, for `0 <= n <= d`,
/// `d > 0`: the value lies in `0 ..= 45000`.
///
/// The approximation is `atan(z) ~ 45°·z + 15.64°·z·(1 - z)` on the unit
/// interval, carried out on the per-mill ratio.
pub open spec fn atan_ratio_spec(n: int, d: int) -> int {
    let t = (n * 1000) / d;
    (45000000 * t + 15640 * t * (1000 - t)) / 1000000
}

/// Millidegree two-argument arctangent, `-180000 ..= 180000`.
///
/// Octant reduction over the magnitudes, then quadrant correction by the
/// signs; both arguments zero give zero.
pub open spec fn atan2_spec(y: int, x: int) -> int {
    let ay = if y >= 0 {
        y
    } else {
        -y
    };
    let ax = if x >= 0 {
        x
    } else {
        -x
    };
    let base = if ay == 0 && ax == 0 {
        0
    } else if ay <= ax {
        atan_ratio_spec(ay, ax)
    } else {
        90000 - atan_ratio_spec(ax, ay)
    };
    let positive = if x >= 0 {
        base
    } else {
        180000 - base
    };
    if y >= 0 {
        positive
    } else {
        -positive
    }
}

/// The ratio arctangent stays within its octant.
pub proof fn lemma_atan_ratio_range(n: int, d: int)
    requires
        0 <= n <= d,
        d > 0,
    ensures
        0 <= atan_ratio_spec(n, d) <= 45000,
{
    let t = (n * 1000) / d;
    assert(0 <= n * 1000) by (nonlinear_arith)
        requires
            n >= 0,
    ;
    assert(n * 1000 <= d * 1000) by (nonlinear_arith)
        requires
            n <= d,
    ;
    assert(t >= 0) by (nonlinear_arith)
        requires
            n * 1000 >= 0,
            d > 0,
            t == (n * 1000) / d,
    ;
    assert(t <= 1000) by (nonlinear_arith)
        requires
            n * 1000 <= d * 1000,
            d > 0,
            t == (n * 1000) / d,
    ;
    assert(45000000 * t + 15640 * t * (1000 - t) >= 0) by (nonlinear_arith)
        requires
            0 <= t <= 1000,
    ;
    assert(45000000 * t + 15640 * t * (1000 - t) <= 45000000000) by (nonlinear_arith)
        requires
            0 <= t <= 1000,
    ;
}

/// A zero numerator gives a zero angle.
pub proof fn lemma_atan_ratio_zero(d: int)
    requires
        d > 0,
    ensures
        atan_ratio_spec(0, d) == 0,
{
    assert((0int * 1000) / d == 0) by (nonlinear_arith)
        requires
            d > 0,
    ;
}

/// Range and axis values of the millidegree arctangent.
pub proof fn lemma_atan2_range(y: int, x: int)
    ensures
        -180000 <= atan2_spec(y, x) <= 180000,
        y == 0 && x >= 0 ==> atan2_spec(y, x) == 0,
        y == 0 && x < 0 ==> atan2_spec(y, x) == 180000,
        y > 0 ==> atan2_spec(y, x) >= 0,
        y < 0 ==> atan2_spec(y, x) <= 0,
{
    let ay = if y >= 0 {
        y
    } else {
        -y
    };
    let ax = if x >= 0 {
        x
    } else {
        -x
    };
    if ay == 0 && ax == 0 {
    } else if ay <= ax {
        lemma_atan_ratio_range(ay, ax);
        if ay == 0 {
            lemma_atan_ratio_zero(ax);
        }
    } else {
        lemma_atan_ratio_range(ax, ay);
    }
}

/// A complementary blend of two values inside a bound stays inside it.
pub proof fn lemma_blend_bounded(alpha: int, g: int, a: int, lim: int)
    requires
        0 < alpha < 1000,
        lim > 0,
        -lim <= g <= lim,
        -lim <= a <= lim,
    ensures
        -lim <= to_zero_div(alpha * g + (1000 - alpha) * a, 1000) <= lim,
{
    let num = alpha * g + (1000 - alpha) * a;
    assert(-(1000 * lim) <= num <= 1000 * lim) by (nonlinear_arith)
        requires
            0 < alpha < 1000,
            -lim <= g <= lim,
            -lim <= a <= lim,
            num == alpha * g + (1000 - alpha) * a,
    ;
    if num >= 0 {
        assert(num / 1000 <= lim) by (nonlinear_arith)
            requires
                0 <= num <= 1000 * lim,
                lim > 0,
        ;
        assert(num / 1000 >= 0) by (nonlinear_arith)
            requires
                num >= 0,
        ;
    } else {
        assert((-num) / 1000 <= lim) by (nonlinear_arith)
            requires
                0 <= -num <= 1000 * lim,
                lim > 0,
        ;
        assert((-num) / 1000 >= 0) by (nonlinear_arith)
            requires
                -num >= 0,
        ;
    }
}

/// Blending towards zero shrinks the magnitude, strictly so away from
/// zero.
pub proof fn lemma_blend_decay(alpha: int, r: int)
    requires
        0 < alpha < 1000,
    ensures
        r == 0 ==> to_zero_div(alpha * r, 1000) == 0,
        r > 0 ==> 0 <= to_zero_div(alpha * r, 1000) < r,
        r < 0 ==> r < to_zero_div(alpha * r, 1000) <= 0,
{
    if r == 0 {
        assert(alpha * r == 0) by (nonlinear_arith)
            requires
                r == 0,
        ;
        assert(0int / 1000 == 0) by (nonlinear_arith);
    } else if r > 0 {
        assert(0 <= (alpha * r) / 1000 < r) by (nonlinear_arith)
            requires
                0 < alpha < 1000,
                r > 0,
        ;
    } else {
        assert(0 <= (alpha * (-r)) / 1000 < -r) by (nonlinear_arith)
            requires
                0 < alpha < 1000,
                -r > 0,
        ;
        assert(alpha * (-r) == -(alpha * r)) by (nonlinear_arith);
    }
}

/// Exec millidegree two-argument arctangent.
///
/// Magnitudes up to `2^40` keep all intermediates inside the machine
/// word.
pub fn atan2_mdeg(y: i64, x: i64) -> (r: i64)
    requires
        -0x100_0000_0000 <= y <= 0x100_0000_0000,
        -0x100_0000_0000 <= x <= 0x100_0000_0000,
    ensures
        r == atan2_spec(y as int, x as int),
        -180000 <= r <= 180000,
{
    proof {
        lemma_atan2_range(y as int, x as int);
    }
    let ay: i64 = if y >= 0 {
        y
    } else {
        -y
    };
    let ax: i64 = if x >= 0 {
        x
    } else {
        -x
    };
    let base: i64 = if ay == 0 && ax == 0 {
        0
    } else if ay <= ax {
        atan_ratio_mdeg(ay, ax)
    } else {
        90000 - atan_ratio_mdeg(ax, ay)
    };
    let positive: i64 = if x >= 0 {
        base
    } else {
        180000 - base
    };
    if y >= 0 {
        positive
    } else {
        -positive
    }
}

/// Exec ratio arctangent on magnitudes.
fn atan_ratio_mdeg(n: i64, d: i64) -> (r: i64)
    requires
        0 <= n <= d,
        d > 0,
        d <= 0x100_0000_0000,
    ensures
        r == atan_ratio_spec(n as int, d as int),
        0 <= r <= 45000,
{
    proof {
        lemma_atan_ratio_range(n as int, d as int);
    }
    let t: u64 = ((n as u64) * 1000) / (d as u64);
    proof {
        assert(0 <= (n * 1000) / (d as int) <= 1000) by (nonlinear_arith)
            requires
                0 <= n <= d,
                d > 0,
        ;
    }
    assert(t == (n * 1000) / (d as int));
    let num: u64 = 45000000 * t + 15640 * t * (1000 - t);
    let r = (num / 1000000) as i64;
    assert(r == atan_ratio_spec(n as int, d as int));
    r
}

} // verus!
