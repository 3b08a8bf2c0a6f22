//! Integer numeric helpers shared by the engine: truncating division (the
//! rounding the fixed-point code uses throughout), integer square root,
//! linear interpolation, and the random picks the spawn logic relies on.
use vstd::prelude::*;
use crate::types::{Fixed, IScalar};

verus! {

/// Mathematical absolute value.
pub open spec fn spec_abs(a: int) -> int {
    if a < 0 {
        -a
    } else {
        a
    }
}

/// Division truncating toward zero, as Rust's `/` computes it on signed
/// integers. Unspecified at 0 like the ghost `/`.
pub open spec fn tdiv(a: int, b: int) -> int {
    if (a < 0) != (b < 0) {
        -(spec_abs(a) / spec_abs(b))
    } else {
        spec_abs(a) / spec_abs(b)
    }
}

/// Truncating division on fixed-point scalars.
pub fn div_trunc(a: i64, b: i64) -> (r: i64)
    requires
        b != 0,
        -0x4000_0000_0000_0000 < a < 0x4000_0000_0000_0000,
        -0x4000_0000_0000_0000 < b < 0x4000_0000_0000_0000,
    ensures
        r == tdiv(a as int, b as int),
{
    let an: i64 = if a < 0 {
        -a
    } else {
        a
    };
    let bn: i64 = if b < 0 {
        -b
    } else {
        b
    };
    let q = an / bn;
    if (a < 0) != (b < 0) {
        -q
    } else {
        q
    }
}

/// Product then truncating division, `a * m / d`, in one step so callers
/// state their bound on the intermediate product once.
pub fn mul_div_trunc(a: i64, m: i64, d: i64) -> (r: i64)
    requires
        d != 0,
        -0x4000_0000_0000_0000 < a * m < 0x4000_0000_0000_0000,
        -0x4000_0000_0000_0000 < d < 0x4000_0000_0000_0000,
        -0x4000_0000_0000_0000 < a < 0x4000_0000_0000_0000,
        -0x4000_0000_0000_0000 < m < 0x4000_0000_0000_0000,
    ensures
        r == tdiv(a * m, d as int),
{
    div_trunc(a * m, d)
}

pub fn imin(a: i64, b: i64) -> (r: i64)
    ensures
        r == if a < b {
            a
        } else {
            b
        },
{
    if a < b {
        a
    } else {
        b
    }
}

pub fn imax(a: i64, b: i64) -> (r: i64)
    ensures
        r == if a > b {
            a
        } else {
            b
        },
{
    if a > b {
        a
    } else {
        b
    }
}

/// Floor of the square root.
pub open spec fn is_isqrt(n: int, r: int) -> bool {
    &&& r >= 0
    &&& r * r <= n
    &&& (r + 1) * (r + 1) > n
}

/// Floor of the square root of `n`, by bisection.
pub fn isqrt(n: u64) -> (r: u64)
    ensures
        is_isqrt(n as int, r as int),
        r <= 4_294_967_295,
{
    let mut lo: u64 = 0;
    let mut hi: u64 = 4_294_967_296;
    if n < 4_294_967_295 {
        hi = n + 1;
        proof {
            assert((n + 1) * (n + 1) > n) by (nonlinear_arith);
        }
    }
    while lo + 1 < hi
        invariant
            lo < hi <= 4_294_967_296,
            lo * lo <= n,
            hi * hi > n,
        decreases hi - lo,
    {
        let mid = lo + (hi - lo) / 2;
        proof {
            vstd::arithmetic::mul::lemma_mul_upper_bound(
                mid as int,
                4_294_967_295,
                mid as int,
                4_294_967_295,
            );
        }
        if mid * mid <= n {
            lo = mid;
        } else {
            hi = mid;
        }
    }
    lo
}

/// The floor of the square root as a function; it agrees with every
/// witness of `is_isqrt` by `lemma_isqrt_unique`.
pub open spec fn spec_isqrt(n: int) -> int {
    choose|r: int| is_isqrt(n, r)
}

/// `is_isqrt` pins a single value down, so any witness equals
/// `spec_isqrt`.
pub proof fn lemma_isqrt_unique(n: int, r: int)
    requires
        is_isqrt(n, r),
    ensures
        spec_isqrt(n) == r,
{
    assert(is_isqrt(n, spec_isqrt(n)));
    let s = spec_isqrt(n);
    if s < r {
        vstd::arithmetic::mul::lemma_mul_inequality(s + 1, r, s + 1);
        vstd::arithmetic::mul::lemma_mul_inequality(s + 1, r, r);
        assert((s + 1) * (s + 1) <= r * (s + 1));
        vstd::arithmetic::mul::lemma_mul_is_commutative(r, s + 1);
        assert(r * (s + 1) <= r * r) by {
            vstd::arithmetic::mul::lemma_mul_left_inequality(r, s + 1, r);
        }
    } else if r < s {
        vstd::arithmetic::mul::lemma_mul_inequality(r + 1, s, r + 1);
        assert((r + 1) * (r + 1) <= s * (r + 1));
        assert(s * (r + 1) <= s * s) by {
            vstd::arithmetic::mul::lemma_mul_left_inequality(s, r + 1, s);
        }
    }
}

/// `value` mapped from the range `[in_min, in_max]` onto
/// `[out_min, out_max]`, truncating toward zero; a degenerate range maps
/// everything onto `out_min`.
pub open spec fn spec_interpolate(
    out_min: int,
    out_max: int,
    in_min: int,
    in_max: int,
    value: int,
) -> int {
    if out_max == out_min || in_max == in_min {
        out_min
    } else {
        out_min + tdiv((out_max - out_min) * (value - in_min), in_max - in_min)
    }
}

pub fn interpolate(out_min: i64, out_max: i64, in_min: i64, in_max: i64, value: i64) -> (r: i64)
    requires
        -0x2000_0000_0000_0000 < (out_max - out_min) * (value - in_min) < 0x2000_0000_0000_0000,
        -0x2000_0000_0000_0000 < in_max - in_min < 0x2000_0000_0000_0000,
        -0x2000_0000_0000_0000 < out_min < 0x2000_0000_0000_0000,
        -0x2000_0000_0000_0000 < out_max < 0x2000_0000_0000_0000,
        -0x2000_0000_0000_0000 < value - in_min < 0x2000_0000_0000_0000,
    ensures
        r == spec_interpolate(
            out_min as int,
            out_max as int,
            in_min as int,
            in_max as int,
            value as int,
        ),
        in_min < in_max && in_min <= value <= in_max ==> {
            &&& out_min <= out_max ==> out_min <= r <= out_max
            &&& out_max <= out_min ==> out_max <= r <= out_min
        },
{
    let out_range = out_max - out_min;
    let in_range = in_max - in_min;
    if out_range == 0 || in_range == 0 {
        return out_min;
    }
    let diff = value - in_min;
    let prod = out_range * diff;
    let q = div_trunc(prod, in_range);
    proof {
        if in_range > 0 && 0 <= diff <= in_range {
            lemma_tdiv_scale_bracket(out_range as int, diff as int, in_range as int);
        }
    }
    out_min + q
}

/// Multiplying by a positive factor keeps the sign.
pub proof fn lemma_mul_sign(a: int, b: int)
    requires
        0 < b,
    ensures
        (a * b < 0) == (a < 0),
        (a * b == 0) == (a == 0),
        (a * b > 0) == (a > 0),
{
    if a < 0 {
        vstd::arithmetic::mul::lemma_mul_unary_negation(a, b);
        vstd::arithmetic::mul::lemma_mul_strictly_positive(-a, b);
    } else if a > 0 {
        vstd::arithmetic::mul::lemma_mul_strictly_positive(a, b);
    } else {
        vstd::arithmetic::mul::lemma_mul_by_zero_is_zero(b);
    }
}

/// Bounds on two factors bound their product's magnitude.
pub proof fn lemma_abs_mul_bound(a: int, b: int, abound: int, bbound: int)
    requires
        spec_abs(a) <= abound,
        spec_abs(b) <= bbound,
    ensures
        spec_abs(a * b) <= abound * bbound,
{
    let aa = spec_abs(a);
    let ab = spec_abs(b);
    assert(spec_abs(a * b) == aa * ab) by {
        if a < 0 {
            vstd::arithmetic::mul::lemma_mul_unary_negation(a, b);
        }
        if b < 0 {
            vstd::arithmetic::mul::lemma_mul_unary_negation(aa, b);
        }
        if a < 0 && b < 0 {
            vstd::arithmetic::mul::lemma_mul_unary_negation(-a, b);
        }
        vstd::arithmetic::mul::lemma_mul_nonnegative(aa, ab);
    }
    vstd::arithmetic::mul::lemma_mul_upper_bound(aa, abound, ab, bbound);
}

/// The magnitude of a truncated quotient is the quotient of the
/// magnitudes.
pub proof fn lemma_tdiv_abs_bound(a: int, b: int)
    requires
        0 < b,
    ensures
        spec_abs(tdiv(a, b)) == spec_abs(a) / b,
        spec_abs(tdiv(a, b)) <= spec_abs(a),
{
    vstd::arithmetic::div_mod::lemma_div_pos_is_pos(spec_abs(a), b);
    vstd::arithmetic::div_mod::lemma_div_is_ordered_by_denominator(spec_abs(a), 1, b);
    vstd::arithmetic::div_mod::lemma_div_basics(spec_abs(a));
}

/// Relies on rand's `Rng::gen_range` over the half-open range `0..n`:
/// it samples a member of the range, so the result is below `n`; it
/// panics only on an empty range, which the `requires` rules out.
#[verifier::external_body]
fn rand_below(n: u32) -> (r: u32)
    requires
        n > 0,
    ensures
        r < n,
{
    rand::Rng::gen_range(&mut rand::thread_rng(), 0..n)
}

/// A random integer in `[0, n)`; 0 whenever the bound is not positive.
pub fn pick_int(n: IScalar) -> (r: IScalar)
    ensures
        n <= 0 ==> r == 0,
        n > 0 ==> 0 <= r < n,
{
    if n <= 0 {
        return 0;
    }
    rand_below(n as u32) as IScalar
}

/// A random fixed-point scalar in `[0, n)`; 0 whenever the bound is not
/// positive.
pub fn pick_fixed(n: Fixed) -> (r: Fixed)
    requires
        n <= u32::MAX,
    ensures
        n <= 0 ==> r == 0,
        n > 0 ==> 0 <= r < n,
{
    if n <= 0 {
        return 0;
    }
    rand_below(n as u32) as Fixed
}

/// For `0 <= t <= d`, the truncated quotient `s * t / d` lies between
/// 0 and `s`, whichever way round those are ordered.
pub proof fn lemma_tdiv_scale_bracket(s: int, t: int, d: int)
    requires
        0 < d,
        0 <= t <= d,
    ensures
        s >= 0 ==> 0 <= tdiv(s * t, d) <= s,
        s <= 0 ==> s <= tdiv(s * t, d) <= 0,
{
    if s >= 0 {
        vstd::arithmetic::mul::lemma_mul_nonnegative(s, t);
        vstd::arithmetic::mul::lemma_mul_inequality(t, d, s);
        assert(t * s <= d * s);
        vstd::arithmetic::mul::lemma_mul_is_commutative(s, t);
        vstd::arithmetic::mul::lemma_mul_is_commutative(s, d);
        vstd::arithmetic::div_mod::lemma_div_pos_is_pos(s * t, d);
        vstd::arithmetic::div_mod::lemma_div_is_ordered(s * t, s * d, d);
        vstd::arithmetic::div_mod::lemma_div_by_multiple(s, d);
    } else {
        let m = -s;
        vstd::arithmetic::mul::lemma_mul_nonnegative(m, t);
        vstd::arithmetic::mul::lemma_mul_inequality(t, d, m);
        assert(t * m <= d * m);
        vstd::arithmetic::mul::lemma_mul_is_commutative(m, t);
        vstd::arithmetic::mul::lemma_mul_is_commutative(m, d);
        vstd::arithmetic::div_mod::lemma_div_pos_is_pos(m * t, d);
        vstd::arithmetic::div_mod::lemma_div_is_ordered(m * t, m * d, d);
        vstd::arithmetic::div_mod::lemma_div_by_multiple(m, d);
        assert(s * t == -(m * t)) by {
            vstd::arithmetic::mul::lemma_mul_unary_negation(m, t);
        }
    }
}

} // verus!
