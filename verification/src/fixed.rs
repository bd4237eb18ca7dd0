//! Fixed-point numbers and linear range mapping.
//!
//! Values are plain integer counts of steps of one millionth.
//! Intermediate results are computed exactly in wider integers; a result
//! that does not fit its type is saturated, never wrapped.

use vstd::prelude::*;
use vstd::arithmetic::div_mod::lemma_div_is_ordered;
use vstd::arithmetic::div_mod::lemma_div_multiples_vanish;
use vstd::arithmetic::div_mod::lemma_fundamental_div_mod;
use vstd::arithmetic::div_mod::lemma_fundamental_div_mod_converse;

verus! {

/// The number of fixed-point steps that make up one whole.
pub const UNIT: i32 = 1_000_000;

/// `v` confined to the closed interval from `lo` to `hi`.
///
/// Values below `lo` give `lo`, values above `hi` give `hi`.
pub open spec fn clamped(v: int, lo: int, hi: int) -> int {
    if v < lo {
        lo
    } else if v > hi {
        hi
    } else {
        v
    }
}

/// `v` confined to the range of an `i32`.
pub open spec fn saturated(v: int) -> int {
    clamped(v, i32::MIN as int, i32::MAX as int)
}

/// `v` confined to the range of an `i64`.
pub open spec fn saturated_long(v: int) -> int {
    clamped(v, i64::MIN as int, i64::MAX as int)
}

/// The product of two fixed-point numbers, rounded down to a whole step.
pub open spec fn times_exact(a: int, b: int) -> int {
    (a * b) / (UNIT as int)
}

/// The point of the output range that corresponds to `val` in the input
/// range, rounded down to a whole step.
///
/// This is the straight line through `(in_min, out_min)` and
/// `(in_max, out_max)`, evaluated at `val`. Nothing is clamped: a `val`
/// outside the input range lands outside the output range. The input
/// range may run in either direction but must not be empty.
pub open spec fn map_range_exact(
    val: int,
    in_min: int,
    in_max: int,
    out_min: int,
    out_max: int,
) -> int
    recommends
        in_min != in_max,
{
    if in_min < in_max {
        out_min + ((val - in_min) * (out_max - out_min)) / (in_max - in_min)
    } else {
        out_min + ((in_min - val) * (out_max - out_min)) / (in_min - in_max)
    }
}

/// Brings a wide intermediate result back into the `i32` range.
pub(crate) fn saturate(v: i128) -> (r: i32)
    ensures
        r == saturated(v as int),
{
    if v < i32::MIN as i128 {
        i32::MIN
    } else if v > i32::MAX as i128 {
        i32::MAX
    } else {
        v as i32
    }
}

/// Brings a wide intermediate result back into the `i64` range.
pub(crate) fn saturate_long(v: i128) -> (r: i64)
    ensures
        r == saturated_long(v as int),
{
    if v < i64::MIN as i128 {
        i64::MIN
    } else if v > i64::MAX as i128 {
        i64::MAX
    } else {
        v as i64
    }
}

/// Division that rounds toward negative infinity.
pub(crate) fn floor_div(n: i128, d: i128) -> (q: i128)
    requires
        d > 0,
    ensures
        q == (n as int) / (d as int),
{
    if n >= 0 {
        n / d
    } else {
        let m: i128 = -(n + 1);
        let k: i128 = m / d;
        proof {
            let r = (m as int) % (d as int);
            lemma_fundamental_div_mod(m as int, d as int);
            assert(n as int == (-k - 1) * d + (d - r - 1)) by (nonlinear_arith)
                requires
                    m as int == d * k + r,
                    m as int == -(n + 1),
            ;
            lemma_fundamental_div_mod_converse(n as int, d as int, -k - 1, d - r - 1);
        }
        -k - 1
    }
}

/// Multiplies two fixed-point numbers, rounding down. The result is
/// exact: it always fits in an `i64`.
pub(crate) fn times(a: i32, b: i32) -> (r: i64)
    ensures
        r == times_exact(a as int, b as int),
{
    assert(-0x4000_0000_0000_0000 <= a * b <= 0x4000_0000_0000_0000) by (nonlinear_arith)
        requires
            -0x8000_0000 <= a <= 0x8000_0000,
            -0x8000_0000 <= b <= 0x8000_0000,
    ;
    let wide: i128 = (a as i128) * (b as i128);
    let q: i128 = floor_div(wide, UNIT as i128);
    proof {
        lemma_quotient_within(wide as int, UNIT as int);
    }
    q as i64
}

/// Maps `val` from the input range to the output range along a straight
/// line, rounding down, and saturates the result.
///
/// The result is exact whenever it fits in an `i32`; in particular it is
/// exact for every `val` between `in_min` and `in_max`, and the two ends
/// of the input range are mapped exactly onto the two ends of the output
/// range.
pub fn map_range(val: i32, in_min: i32, in_max: i32, out_min: i32, out_max: i32) -> (r: i32)
    requires
        in_min != in_max,
    ensures
        r == saturated(
            map_range_exact(
                val as int,
                in_min as int,
                in_max as int,
                out_min as int,
                out_max as int,
            ),
        ),
        val == in_min ==> r == out_min,
        val == in_max ==> r == out_max,
{
    proof {
        lemma_map_range_endpoints(in_min as int, in_max as int, out_min as int, out_max as int);
    }
    let rise: i128 = out_max as i128 - out_min as i128;
    let (run, span): (i128, i128) = if in_min < in_max {
        (val as i128 - in_min as i128, in_max as i128 - in_min as i128)
    } else {
        (in_min as i128 - val as i128, in_min as i128 - in_max as i128)
    };
    assert(-0x1_0000_0000_0000_0000 <= run * rise <= 0x1_0000_0000_0000_0000)
        by (nonlinear_arith)
        requires
            -0x1_0000_0000 <= run <= 0x1_0000_0000,
            -0x1_0000_0000 <= rise <= 0x1_0000_0000,
    ;
    let q: i128 = floor_div(run * rise, span);
    proof {
        lemma_quotient_within((run * rise) as int, span as int);
    }
    saturate(out_min as i128 + q)
}

/// Dividing by a positive number never moves a value away from zero.
proof fn lemma_quotient_within(n: int, d: int)
    requires
        d > 0,
    ensures
        n >= 0 ==> 0 <= n / d <= n,
        n <= 0 ==> n <= n / d <= 0,
{
    lemma_fundamental_div_mod(n, d);
    let q = n / d;
    let r = n % d;
    if n >= 0 {
        assert(0 <= q <= n) by (nonlinear_arith)
            requires
                n == d * q + r,
                0 <= r < d,
                n >= 0,
        ;
    }
    if n <= 0 {
        assert(n <= q <= 0) by (nonlinear_arith)
            requires
                n == d * q + r,
                0 <= r < d,
                n <= 0,
        ;
    }
}

/// A share of `rise` that is taken in `run` parts out of `span` lies
/// between nothing and the whole of `rise`.
proof fn lemma_share_within(run: int, rise: int, span: int)
    requires
        span > 0,
        0 <= run <= span,
    ensures
        rise >= 0 ==> 0 <= (run * rise) / span <= rise,
        rise <= 0 ==> rise <= (run * rise) / span <= 0,
{
    lemma_div_multiples_vanish(rise, span);
    lemma_quotient_within(0, span);
    if rise >= 0 {
        assert(0 <= run * rise <= span * rise) by (nonlinear_arith)
            requires
                0 <= run <= span,
                rise >= 0,
        ;
        lemma_div_is_ordered(0, run * rise, span);
        lemma_div_is_ordered(run * rise, span * rise, span);
    }
    if rise <= 0 {
        assert(span * rise <= run * rise <= 0) by (nonlinear_arith)
            requires
                0 <= run <= span,
                rise <= 0,
        ;
        lemma_div_is_ordered(span * rise, run * rise, span);
        lemma_div_is_ordered(run * rise, 0, span);
    }
}

/// Multiplying by one or by minus one is exact, and multiplying by zero
/// gives zero.
pub proof fn lemma_times_unit(b: int)
    ensures
        times_exact(UNIT as int, b) == b,
        times_exact(-UNIT, b) == -b,
        times_exact(0, b) == 0,
{
    lemma_div_multiples_vanish(b, UNIT as int);
    lemma_div_multiples_vanish(-b, UNIT as int);
    assert((-UNIT) * b == UNIT * (-b)) by (nonlinear_arith);
    assert(0 * b == 0);
}

/// Multiplying a value by a factor between zero and one never moves it
/// away from zero and never changes its sign.
pub proof fn lemma_times_within(factor: int, value: int)
    requires
        0 <= factor <= UNIT,
    ensures
        value >= 0 ==> 0 <= times_exact(factor, value) <= value,
        value <= 0 ==> value <= times_exact(factor, value) <= 0,
{
    lemma_share_within(factor, value, UNIT as int);
}

/// Multiplying by a number that is not negative keeps the order of the
/// other factor.
pub proof fn lemma_times_monotone(lower: int, upper: int, b: int)
    requires
        lower <= upper,
        b >= 0,
    ensures
        times_exact(lower, b) <= times_exact(upper, b),
{
    assert(lower * b <= upper * b) by (nonlinear_arith)
        requires
            lower <= upper,
            b >= 0,
    ;
    lemma_div_is_ordered(lower * b, upper * b, UNIT as int);
}

/// The ends of the input range are mapped exactly onto the ends of the
/// output range, whatever the two ranges are.
pub proof fn lemma_map_range_endpoints(in_min: int, in_max: int, out_min: int, out_max: int)
    requires
        in_min != in_max,
    ensures
        map_range_exact(in_min, in_min, in_max, out_min, out_max) == out_min,
        map_range_exact(in_max, in_min, in_max, out_min, out_max) == out_max,
{
    let span = if in_min < in_max {
        in_max - in_min
    } else {
        in_min - in_max
    };
    lemma_share_within(0, out_max - out_min, span);
    lemma_div_multiples_vanish(out_max - out_min, span);
    assert(0 * (out_max - out_min) == 0);
}

/// A value inside the input range is mapped inside the output range.
pub proof fn lemma_map_range_within(val: int, in_min: int, in_max: int, out_min: int, out_max: int)
    requires
        in_min != in_max,
        in_min <= val <= in_max || in_max <= val <= in_min,
    ensures
        out_min <= out_max ==> out_min <= map_range_exact(val, in_min, in_max, out_min, out_max)
            <= out_max,
        out_max <= out_min ==> out_max <= map_range_exact(val, in_min, in_max, out_min, out_max)
            <= out_min,
{
    if in_min < in_max {
        lemma_share_within(val - in_min, out_max - out_min, in_max - in_min);
    } else {
        lemma_share_within(in_min - val, out_max - out_min, in_min - in_max);
    }
}

/// When both ranges run upward, the mapping keeps the order of its
/// arguments: a larger value is never mapped below a smaller one.
pub proof fn lemma_map_range_monotone(
    lower: int,
    upper: int,
    in_min: int,
    in_max: int,
    out_min: int,
    out_max: int,
)
    requires
        in_min < in_max,
        out_min <= out_max,
        lower <= upper,
    ensures
        map_range_exact(lower, in_min, in_max, out_min, out_max) <= map_range_exact(
            upper,
            in_min,
            in_max,
            out_min,
            out_max,
        ),
{
    let rise = out_max - out_min;
    assert((lower - in_min) * rise <= (upper - in_min) * rise) by (nonlinear_arith)
        requires
            lower <= upper,
            rise >= 0,
    ;
    lemma_div_is_ordered((lower - in_min) * rise, (upper - in_min) * rise, in_max - in_min);
}

} // verus!
