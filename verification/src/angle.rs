//! Fixed-point angles in microradians: normalization, signed shortest
//! differences, and table-driven sine/cosine/arctangent. A full turn is
//! `TAU` microradians; the eight compass directions used by the road
//! tables are exact multiples of `QUARTER_PI`.
use vstd::prelude::*;
use crate::types::{Angle, Fixed, Time, Vec3, Vec3fx};
use crate::util::{spec_abs, div_trunc};

verus! {

pub const QUARTER_PI: Angle = 785_398;
pub const HALF_PI: Angle = 1_570_796;
pub const PI: Angle = 3_141_592;
pub const TAU: Angle = 6_283_184;

pub const ANGLE_E: Angle = 0;
pub const ANGLE_SE: Angle = QUARTER_PI;
pub const ANGLE_S: Angle = HALF_PI;
pub const ANGLE_SW: Angle = HALF_PI + QUARTER_PI;
pub const ANGLE_W: Angle = PI;
pub const ANGLE_NW: Angle = PI + QUARTER_PI;
pub const ANGLE_N: Angle = PI + HALF_PI;
pub const ANGLE_NE: Angle = PI + HALF_PI + QUARTER_PI;

/// Angles are compared modulo a full turn; this is the canonical
/// representative in `[0, TAU)`.
pub open spec fn norm_spec(a: int) -> int {
    a % (TAU as int)
}

/// Canonical representative in `(-PI, PI]`, the signed form used for
/// shortest-way turning.
pub open spec fn norm_pi_spec(a: int) -> int {
    if norm_spec(a) > PI {
        norm_spec(a) - TAU
    } else {
        norm_spec(a)
    }
}

/// Angle brought into `[0, TAU)`.
pub fn normalize_angle(a: Angle) -> (r: Angle)
    requires
        -0x4000_0000_0000_0000 < a < 0x4000_0000_0000_0000,
    ensures
        r == norm_spec(a as int),
        0 <= r < TAU,
{
    let q = div_trunc(a, TAU);
    proof {
        vstd::arithmetic::div_mod::lemma_fundamental_div_mod(spec_abs(a as int), TAU as int);
        vstd::arithmetic::div_mod::lemma_remainder_lower(spec_abs(a as int), TAU as int);
        vstd::arithmetic::div_mod::lemma_remainder_upper(spec_abs(a as int), TAU as int);
    }
    let m = a - q * TAU;
    proof {
        if a >= 0 {
            vstd::arithmetic::div_mod::lemma_fundamental_div_mod_converse_mod(
                a as int,
                TAU as int,
                q as int,
                m as int,
            );
        } else {
            if m == 0 {
                vstd::arithmetic::div_mod::lemma_fundamental_div_mod_converse_mod(
                    a as int,
                    TAU as int,
                    q as int,
                    0,
                );
            } else {
                vstd::arithmetic::div_mod::lemma_fundamental_div_mod_converse_mod(
                    a as int,
                    TAU as int,
                    q as int - 1,
                    m as int + TAU,
                );
            }
        }
    }
    if m < 0 {
        m + TAU
    } else {
        m
    }
}

/// Angle brought into `(-PI, PI]`.
pub fn normalize_angle_pi(a: Angle) -> (r: Angle)
    requires
        -0x4000_0000_0000_0000 < a < 0x4000_0000_0000_0000,
    ensures
        r == norm_pi_spec(a as int),
        -PI < r <= PI,
{
    let n = normalize_angle(a);
    if n > PI {
        n - TAU
    } else {
        n
    }
}

/// Signed shortest rotation from `angle2` round to `angle1`, in
/// `(-PI, PI]`.
pub fn normalized_angle_diff(angle1: Angle, angle2: Angle) -> (r: Angle)
    requires
        -0x2000_0000_0000_0000 < angle1 < 0x2000_0000_0000_0000,
        -0x2000_0000_0000_0000 < angle2 < 0x2000_0000_0000_0000,
    ensures
        r == norm_pi_spec(angle1 - angle2),
        -PI < r <= PI,
{
    normalize_angle_pi(angle1 - angle2)
}

/// Sine sample table over a quarter turn: entry `k` is
/// `sin(k/16 * HALF_PI)` scaled by 1000.
pub open spec fn sin_table(k: int) -> int {
    if k <= 0 {
        0
    } else if k == 1 {
        98
    } else if k == 2 {
        195
    } else if k == 3 {
        290
    } else if k == 4 {
        383
    } else if k == 5 {
        471
    } else if k == 6 {
        556
    } else if k == 7 {
        634
    } else if k == 8 {
        707
    } else if k == 9 {
        773
    } else if k == 10 {
        831
    } else if k == 11 {
        882
    } else if k == 12 {
        924
    } else if k == 13 {
        957
    } else if k == 14 {
        981
    } else if k == 15 {
        995
    } else {
        1000
    }
}

pub fn sin_table_at(k: usize) -> (r: i64)
    requires
        k <= 16,
    ensures
        r == sin_table(k as int),
{
    if k == 0 {
        0
    } else if k == 1 {
        98
    } else if k == 2 {
        195
    } else if k == 3 {
        290
    } else if k == 4 {
        383
    } else if k == 5 {
        471
    } else if k == 6 {
        556
    } else if k == 7 {
        634
    } else if k == 8 {
        707
    } else if k == 9 {
        773
    } else if k == 10 {
        831
    } else if k == 11 {
        882
    } else if k == 12 {
        924
    } else if k == 13 {
        957
    } else if k == 14 {
        981
    } else if k == 15 {
        995
    } else {
        1000
    }
}

/// Sine over the first quadrant, `0 <= a <= HALF_PI`, by linear
/// interpolation between table samples; scaled by 1000.
pub open spec fn sin_quarter_spec(a: int) -> int {
    let i = a * 16 / (HALF_PI as int);
    if i >= 16 {
        1000
    } else {
        let rem = a * 16 - i * (HALF_PI as int);
        sin_table(i) + (sin_table(i + 1) - sin_table(i)) * rem / (HALF_PI as int)
    }
}

/// Sine of any angle, scaled by 1000, by quadrant reduction onto
/// `sin_quarter_spec`. Opaque: callers work with `lemma_sin_bounds` and
/// the executable `sin_fp`.
#[verifier::opaque]
pub open spec fn spec_sin(a: int) -> int {
    let n = norm_spec(a);
    if n < HALF_PI {
        sin_quarter_spec(n)
    } else if n < PI {
        sin_quarter_spec((PI as int) - n)
    } else if n < PI + HALF_PI {
        -sin_quarter_spec(n - (PI as int))
    } else {
        -sin_quarter_spec((TAU as int) - n)
    }
}

/// Cosine of any angle, scaled by 1000.
pub open spec fn spec_cos(a: int) -> int {
    spec_sin(a + (HALF_PI as int))
}

/// The quarter-wave interpolation stays within `[0, 1000]`.
proof fn lemma_sin_quarter_bounds(a: int)
    requires
        0 <= a <= HALF_PI,
    ensures
        0 <= sin_quarter_spec(a) <= 1000,
{
    let h = HALF_PI as int;
    let i = a * 16 / h;
    vstd::arithmetic::div_mod::lemma_div_pos_is_pos(a * 16, h);
    if i < 16 {
        let rem = a * 16 - i * h;
        vstd::arithmetic::div_mod::lemma_fundamental_div_mod(a * 16, h);
        vstd::arithmetic::div_mod::lemma_remainder_upper(a * 16, h);
        vstd::arithmetic::div_mod::lemma_remainder_lower(a * 16, h);
        assert(0 <= rem < h);
        let lo = sin_table(i);
        let hi = sin_table(i + 1);
        assert(0 <= lo <= hi <= 1000);
        let term = (hi - lo) * rem / h;
        vstd::arithmetic::mul::lemma_mul_nonnegative(hi - lo, rem);
        vstd::arithmetic::div_mod::lemma_div_pos_is_pos((hi - lo) * rem, h);
        vstd::arithmetic::mul::lemma_mul_inequality(rem, h, hi - lo);
        vstd::arithmetic::mul::lemma_mul_is_commutative(hi - lo, rem);
        vstd::arithmetic::mul::lemma_mul_is_commutative(hi - lo, h);
        vstd::arithmetic::div_mod::lemma_div_is_ordered((hi - lo) * rem, (hi - lo) * h, h);
        vstd::arithmetic::div_mod::lemma_div_by_multiple(hi - lo, h);
        assert(0 <= term <= hi - lo);
    }
}

/// Sine values are bounded by the scale.
pub proof fn lemma_sin_bounds(a: int)
    ensures
        -1000 <= spec_sin(a) <= 1000,
{
    reveal(spec_sin);
    let n = norm_spec(a);
    vstd::arithmetic::div_mod::lemma_mod_division_less_than_divisor(a, TAU as int);
    if n < HALF_PI {
        lemma_sin_quarter_bounds(n);
    } else if n < PI {
        lemma_sin_quarter_bounds((PI as int) - n);
    } else if n < PI + HALF_PI {
        lemma_sin_quarter_bounds(n - (PI as int));
    } else {
        lemma_sin_quarter_bounds((TAU as int) - n);
    }
}

/// Cosine values are bounded by the scale.
pub proof fn lemma_cos_bounds(a: int)
    ensures
        -1000 <= spec_cos(a) <= 1000,
{
    lemma_sin_bounds(a + (HALF_PI as int));
}

/// Sine over the first quadrant, executable form.
fn sin_quarter(a: i64) -> (r: i64)
    requires
        0 <= a <= HALF_PI,
    ensures
        r == sin_quarter_spec(a as int),
        0 <= r <= 1000,
{
    proof {
        lemma_sin_quarter_bounds(a as int);
    }
    let i = (a * 16) / HALF_PI;
    if i >= 16 {
        return 1000;
    }
    proof {
        vstd::arithmetic::div_mod::lemma_div_pos_is_pos(a as int * 16, HALF_PI as int);
        vstd::arithmetic::div_mod::lemma_fundamental_div_mod(a as int * 16, HALF_PI as int);
        vstd::arithmetic::div_mod::lemma_remainder_upper(a as int * 16, HALF_PI as int);
        vstd::arithmetic::div_mod::lemma_remainder_lower(a as int * 16, HALF_PI as int);
    }
    let rem = a * 16 - i * HALF_PI;
    let lo = sin_table_at(i as usize);
    let hi = sin_table_at((i + 1) as usize);
    lo + ((hi - lo) * rem) / HALF_PI
}

/// Sine of an angle, scaled by 1000.
pub fn sin_fp(a: Angle) -> (r: i64)
    requires
        -0x4000_0000_0000_0000 < a < 0x4000_0000_0000_0000,
    ensures
        r == spec_sin(a as int),
        -1000 <= r <= 1000,
{
    proof {
        reveal(spec_sin);
        lemma_sin_bounds(a as int);
    }
    let n = normalize_angle(a);
    if n < HALF_PI {
        sin_quarter(n)
    } else if n < PI {
        sin_quarter(PI - n)
    } else if n < PI + HALF_PI {
        -sin_quarter(n - PI)
    } else {
        -sin_quarter(TAU - n)
    }
}

/// Cosine of an angle, scaled by 1000.
pub fn cos_fp(a: Angle) -> (r: i64)
    requires
        -0x4000_0000_0000_0000 < a < 0x3000_0000_0000_0000,
    ensures
        r == spec_cos(a as int),
        -1000 <= r <= 1000,
{
    sin_fp(a + HALF_PI)
}

/// Arctangent sample table: entry `k` is `atan(k/16)` in microradians.
pub open spec fn atan_table(k: int) -> int {
    if k <= 0 {
        0
    } else if k == 1 {
        62419
    } else if k == 2 {
        124355
    } else if k == 3 {
        185348
    } else if k == 4 {
        244979
    } else if k == 5 {
        302885
    } else if k == 6 {
        358771
    } else if k == 7 {
        412410
    } else if k == 8 {
        463648
    } else if k == 9 {
        512389
    } else if k == 10 {
        558599
    } else if k == 11 {
        602287
    } else if k == 12 {
        643501
    } else if k == 13 {
        682317
    } else if k == 14 {
        718830
    } else if k == 15 {
        753151
    } else {
        785398
    }
}

fn atan_table_at(k: usize) -> (r: i64)
    requires
        k <= 16,
    ensures
        r == atan_table(k as int),
{
    if k == 0 {
        0
    } else if k == 1 {
        62419
    } else if k == 2 {
        124355
    } else if k == 3 {
        185348
    } else if k == 4 {
        244979
    } else if k == 5 {
        302885
    } else if k == 6 {
        358771
    } else if k == 7 {
        412410
    } else if k == 8 {
        463648
    } else if k == 9 {
        512389
    } else if k == 10 {
        558599
    } else if k == 11 {
        602287
    } else if k == 12 {
        643501
    } else if k == 13 {
        682317
    } else if k == 14 {
        718830
    } else if k == 15 {
        753151
    } else {
        785398
    }
}

/// Arctangent of the slope `p / q` for `0 <= p <= q`, `q > 0`, in
/// microradians, by linear interpolation between table samples.
pub open spec fn atan_slope_spec(p: int, q: int) -> int {
    let i = p * 16 / q;
    if i >= 16 {
        QUARTER_PI as int
    } else {
        let rem = p * 16 - i * q;
        atan_table(i) + (atan_table(i + 1) - atan_table(i)) * rem / q
    }
}

/// The slope interpolation stays within `[0, QUARTER_PI]`.
proof fn lemma_atan_slope_bounds(p: int, q: int)
    requires
        0 <= p <= q,
        0 < q,
    ensures
        0 <= atan_slope_spec(p, q) <= QUARTER_PI,
{
    let i = p * 16 / q;
    vstd::arithmetic::div_mod::lemma_div_pos_is_pos(p * 16, q);
    if i < 16 {
        let rem = p * 16 - i * q;
        vstd::arithmetic::div_mod::lemma_fundamental_div_mod(p * 16, q);
        vstd::arithmetic::div_mod::lemma_remainder_upper(p * 16, q);
        vstd::arithmetic::div_mod::lemma_remainder_lower(p * 16, q);
        assert(0 <= rem < q);
        let lo = atan_table(i);
        let hi = atan_table(i + 1);
        assert(0 <= lo <= hi <= QUARTER_PI);
        let term = (hi - lo) * rem / q;
        vstd::arithmetic::mul::lemma_mul_nonnegative(hi - lo, rem);
        vstd::arithmetic::div_mod::lemma_div_pos_is_pos((hi - lo) * rem, q);
        vstd::arithmetic::mul::lemma_mul_inequality(rem, q, hi - lo);
        vstd::arithmetic::mul::lemma_mul_is_commutative(hi - lo, rem);
        vstd::arithmetic::mul::lemma_mul_is_commutative(hi - lo, q);
        vstd::arithmetic::div_mod::lemma_div_is_ordered((hi - lo) * rem, (hi - lo) * q, q);
        vstd::arithmetic::div_mod::lemma_div_by_multiple(hi - lo, q);
        assert(0 <= term <= hi - lo);
    }
}

fn atan_slope(p: i64, q: i64) -> (r: i64)
    requires
        0 <= p <= q,
        0 < q <= 2_000_000_000,
    ensures
        r == atan_slope_spec(p as int, q as int),
        0 <= r <= QUARTER_PI,
{
    proof {
        lemma_atan_slope_bounds(p as int, q as int);
    }
    let i = (p * 16) / q;
    if i >= 16 {
        return QUARTER_PI;
    }
    proof {
        vstd::arithmetic::div_mod::lemma_div_pos_is_pos(p as int * 16, q as int);
        vstd::arithmetic::div_mod::lemma_fundamental_div_mod(p as int * 16, q as int);
        vstd::arithmetic::div_mod::lemma_remainder_upper(p as int * 16, q as int);
        vstd::arithmetic::div_mod::lemma_remainder_lower(p as int * 16, q as int);
    }
    let rem = p * 16 - i * q;
    let lo = atan_table_at(i as usize);
    let hi = atan_table_at((i + 1) as usize);
    proof {
        assert(0 <= lo <= hi <= QUARTER_PI);
        assert(0 <= rem < q);
        vstd::arithmetic::mul::lemma_mul_nonnegative((hi - lo) as int, rem as int);
        vstd::arithmetic::mul::lemma_mul_upper_bound(
            (hi - lo) as int,
            785_398,
            rem as int,
            2_000_000_000,
        );
    }
    lo + ((hi - lo) * rem) / q
}

/// Heading of the vector `(x, y)` from the positive x-axis, in
/// `[-PI, PI]` microradians; the zero vector maps to heading 0.
pub open spec fn spec_atan2(y: int, x: int) -> int {
    let ax = spec_abs(x);
    let ay = spec_abs(y);
    if ax == 0 && ay == 0 {
        0
    } else {
        let base = if ay <= ax {
            atan_slope_spec(ay, ax)
        } else {
            (HALF_PI as int) - atan_slope_spec(ax, ay)
        };
        if x >= 0 && y >= 0 {
            base
        } else if x < 0 && y >= 0 {
            (PI as int) - base
        } else if x < 0 {
            base - (PI as int)
        } else {
            -base
        }
    }
}

/// Heading of a vector from the positive x-axis (y grows downward on
/// screen, so positive headings turn toward positive y).
pub fn vec_angle(vector: Vec3fx) -> (r: Angle)
    requires
        -2_000_000_000 <= vector.x <= 2_000_000_000,
        -2_000_000_000 <= vector.y <= 2_000_000_000,
    ensures
        r == spec_atan2(vector.y as int, vector.x as int),
        -PI <= r <= PI,
{
    let ax: i64 = if vector.x < 0 {
        -vector.x
    } else {
        vector.x
    };
    let ay: i64 = if vector.y < 0 {
        -vector.y
    } else {
        vector.y
    };
    if ax == 0 && ay == 0 {
        return 0;
    }
    let base: i64 = if ay <= ax {
        atan_slope(ay, ax)
    } else {
        proof {
            lemma_atan_slope_bounds(ax as int, ay as int);
        }
        HALF_PI - atan_slope(ax, ay)
    };
    if vector.x >= 0 && vector.y >= 0 {
        base
    } else if vector.x < 0 && vector.y >= 0 {
        PI - base
    } else if vector.x < 0 {
        base - PI
    } else {
        -base
    }
}

/// Orientation slot of an angle within a clip that holds `length`
/// orientations spread over the full turn.
pub fn get_angle_in_clip(angle: Angle, length: usize) -> (r: usize)
    requires
        0 < length < 0x1_0000_0000,
        -0x4000_0000_0000_0000 < angle < 0x4000_0000_0000_0000,
    ensures
        r == norm_spec(angle as int) * length / (TAU as int),
        r < length,
{
    let n = normalize_angle(angle);
    proof {
        let ni = n as int;
        let li = length as int;
        let t = TAU as int;
        vstd::arithmetic::mul::lemma_mul_nonnegative(ni, li);
        vstd::arithmetic::mul::lemma_mul_upper_bound(ni, t - 1, li, 0x1_0000_0000);
        vstd::arithmetic::div_mod::lemma_div_pos_is_pos(ni * li, t);
        vstd::arithmetic::mul::lemma_mul_inequality(ni, t - 1, li);
        vstd::arithmetic::mul::lemma_mul_is_commutative(ni, li);
        vstd::arithmetic::mul::lemma_mul_is_commutative(li, t - 1);
        vstd::arithmetic::div_mod::lemma_div_is_ordered(ni * li, (t - 1) * li, t);
        vstd::arithmetic::div_mod::lemma_multiply_divide_lt(li * (t - 1), t, li);
    }
    let slot = (n * (length as i64)) / TAU;
    slot as usize
}

/// Frame slot of an animation clip: time `time` into an animation of
/// `length` frames spread over `total_length` milliseconds, repeating.
pub fn get_frame_in_clip(time: Time, total_length: usize, length: usize) -> (r: usize)
    requires
        0 < total_length,
        0 < length,
        time * length < 0x8000_0000_0000_0000,
    ensures
        r == (time as int) * (length as int) / (total_length as int) % (length as int),
        r < length,
{
    let frame = time * (length as u64) / (total_length as u64) % (length as u64);
    proof {
        vstd::arithmetic::div_mod::lemma_mod_division_less_than_divisor(
            (time as int) * (length as int) / (total_length as int),
            length as int,
        );
        vstd::arithmetic::div_mod::lemma_div_pos_is_pos((time as int) * (length as int),
            total_length as int);
    }
    frame as usize
}

/// Unit direction vector of an angle: cosine in `x`, sine in `y`,
/// both scaled by 1000.
pub fn cossin(a: Angle) -> (r: Vec3fx)
    requires
        -0x3000_0000_0000_0000 < a < 0x3000_0000_0000_0000,
    ensures
        r.x == spec_cos(a as int),
        r.y == spec_sin(a as int),
        r.z == 0,
        -1000 <= r.x <= 1000,
        -1000 <= r.y <= 1000,
{
    Vec3 { x: cos_fp(a), y: sin_fp(a), z: 0 }
}

} // verus!
