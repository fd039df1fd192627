//! Exact statistics of a filter response. Scores are kept in millionths, as
//! unsigned integers, so that no rounding depends on the order of summation.

use crate::grayscale::MAX_PIXELS;
use vstd::prelude::*;

verus! {

/// How many millionths make one unit of a score or of a threshold.
pub const MICROS_PER_UNIT: u64 = 1_000_000;

/// The sum of the values.
pub open spec fn total(s: Seq<i16>) -> int
    decreases s.len(),
{
    if s.len() == 0 {
        0
    } else {
        total(s.drop_last()) + s.last()
    }
}

/// The sum of the squares of the values.
pub open spec fn total_squares(s: Seq<i16>) -> int
    decreases s.len(),
{
    if s.len() == 0 {
        0
    } else {
        total_squares(s.drop_last()) + s.last() * s.last()
    }
}

/// The population variance of the values multiplied by the square of their
/// number: `n * sum(v^2) - sum(v)^2`.
pub open spec fn spread(s: Seq<i16>) -> int {
    s.len() * total_squares(s) - total(s) * total(s)
}

/// The population variance of the values (the divisor is their number, not
/// one less), in millionths, rounded down. Zero for no values.
pub open spec fn variance_micros(s: Seq<i16>) -> int {
    if s.len() == 0 {
        0
    } else {
        (MICROS_PER_UNIT * spread(s)) / ((s.len() * s.len()) as int)
    }
}

/// The sum over the values of `(n * v - t)^2`.
pub open spec fn scaled_deviations(s: Seq<i16>, n: int, t: int) -> int
    decreases s.len(),
{
    if s.len() == 0 {
        0
    } else {
        scaled_deviations(s.drop_last(), n, t) + (n * s.last() - t) * (n * s.last() - t)
    }
}

/// A sum of squared deviations is never negative, and expands into the sums
/// of the values and of their squares.
pub proof fn lemma_scaled_deviations(s: Seq<i16>, n: int, t: int)
    ensures
        scaled_deviations(s, n, t) >= 0,
        scaled_deviations(s, n, t) == n * n * total_squares(s) - 2 * n * t * total(s) + s.len() * t
            * t,
    decreases s.len(),
{
    if s.len() > 0 {
        let p = s.drop_last();
        let v = s.last() as int;
        lemma_scaled_deviations(p, n, t);
        let a = total_squares(p);
        let b = total(p);
        let k = p.len() as int;
        assert((n * v - t) * (n * v - t) >= 0) by (nonlinear_arith);
        assert(n * n * a - 2 * n * t * b + k * t * t + (n * v - t) * (n * v - t) == n * n * (a + v
            * v) - 2 * n * t * (b + v) + (k + 1) * t * t) by (nonlinear_arith);
    }
}

/// The variance formula is the mean squared deviation from the mean: with
/// `n` values of sum `t`, `n * spread` is the sum of `(n * v - t)^2`. So the
/// spread, and with it the variance, is never negative.
pub proof fn lemma_spread_is_squared_deviation(s: Seq<i16>)
    ensures
        s.len() * spread(s) == scaled_deviations(s, s.len() as int, total(s)),
        spread(s) >= 0,
        variance_micros(s) >= 0,
{
    let n = s.len() as int;
    let t = total(s);
    let q = total_squares(s);
    lemma_scaled_deviations(s, n, t);
    assert(n * (n * q - t * t) == n * n * q - 2 * n * t * t + n * t * t) by (nonlinear_arith);
    if n > 0 {
        assert(spread(s) >= 0) by (nonlinear_arith)
            requires
                n > 0,
                n * spread(s) >= 0,
        ;
        assert(MICROS_PER_UNIT * spread(s) >= 0) by (nonlinear_arith)
            requires
                spread(s) >= 0,
        ;
        assert(n * n > 0) by (nonlinear_arith)
            requires
                n > 0,
        ;
        vstd::arithmetic::div_mod::lemma_div_pos_is_pos(MICROS_PER_UNIT * spread(s), n * n);
    }
}

/// Values that are all zero have no variance.
pub proof fn lemma_zeros_have_no_variance(s: Seq<i16>)
    requires
        forall|i: int| 0 <= i < s.len() ==> s[i] == 0,
    ensures
        total(s) == 0,
        total_squares(s) == 0,
        variance_micros(s) == 0,
    decreases s.len(),
{
    if s.len() > 0 {
        lemma_zeros_have_no_variance(s.drop_last());
        assert(spread(s) == 0) by (nonlinear_arith)
            requires
                spread(s) == s.len() * total_squares(s) - total(s) * total(s),
                total(s) == 0,
                total_squares(s) == 0,
        ;
        let n = s.len() as int;
        assert(n * n > 0) by (nonlinear_arith)
            requires
                n > 0,
        ;
        assert(0int / (n * n) == 0);
    }
}

/// The sums of a prefix one value longer.
pub proof fn lemma_totals_step(s: Seq<i16>, i: int)
    requires
        0 <= i < s.len(),
    ensures
        total(s.take(i + 1)) == total(s.take(i)) + s[i],
        total_squares(s.take(i + 1)) == total_squares(s.take(i)) + s[i] * s[i],
{
    assert(s.take(i + 1).drop_last() =~= s.take(i));
}

/// The sums of `n` values stay within `n` times the extremes of one value.
pub proof fn lemma_totals_bounds(s: Seq<i16>)
    ensures
        -32768 * s.len() <= total(s) <= 32768 * s.len(),
        0 <= total_squares(s) <= 0x4000_0000 * s.len(),
    decreases s.len(),
{
    if s.len() > 0 {
        lemma_totals_bounds(s.drop_last());
        let v = s.last() as int;
        assert(0 <= v * v <= 0x4000_0000) by (nonlinear_arith)
            requires
                -32768 <= v <= 32768,
        ;
    }
}

/// The mean of the values, in millionths, rounded toward zero. Zero for no
/// values.
pub open spec fn mean_micros(s: Seq<i16>) -> int {
    if s.len() == 0 {
        0
    } else if total(s) >= 0 {
        (MICROS_PER_UNIT * total(s)) / (s.len() as int)
    } else {
        -((MICROS_PER_UNIT * (-total(s))) / (s.len() as int))
    }
}

/// The sum of the values and the sum of their squares.
fn sums(values: &Vec<i16>) -> (r: (i64, u64))
    requires
        values@.len() <= MAX_PIXELS,
    ensures
        r.0 == total(values@),
        r.1 == total_squares(values@),
        -32768 * values@.len() <= r.0 <= 32768 * values@.len(),
        r.1 <= 0x4000_0000 * values@.len(),
{
    let len: usize = values.len();
    let mut sum: i64 = 0;
    let mut squares: u64 = 0;
    let mut i: usize = 0;
    while i < len
        invariant
            len == values@.len(),
            len <= MAX_PIXELS,
            i <= len,
            sum == total(values@.take(i as int)),
            squares == total_squares(values@.take(i as int)),
        decreases len - i,
    {
        proof {
            lemma_totals_step(values@, i as int);
            lemma_totals_bounds(values@.take(i as int));
            lemma_totals_bounds(values@.take(i as int + 1));
        }
        let v: i64 = values[i] as i64;
        assert(0 <= v * v <= 0x4000_0000) by (nonlinear_arith)
            requires
                -32768 <= v <= 32768,
        ;
        sum = sum + v;
        squares = squares + (v * v) as u64;
        i = i + 1;
    }
    proof {
        assert(values@.take(len as int) =~= values@);
        lemma_totals_bounds(values@);
    }
    (sum, squares)
}

/// The size of a number.
fn magnitude_of(value: i64) -> (m: u64)
    ensures
        m == if value < 0 {
            -value
        } else {
            value as int
        },
{
    if value < 0 {
        ((-(value + 1)) as u64) + 1
    } else {
        value as u64
    }
}

/// The population variance of `values` in millionths, rounded down. There is
/// a result exactly when there is at least one value and no more than
/// `MAX_PIXELS` of them.
pub fn population_variance(values: &Vec<i16>) -> (r: Option<u64>)
    ensures
        r is Some <==> 0 < values@.len() <= MAX_PIXELS,
        r matches Some(v) ==> v == variance_micros(values@),
{
    let len: usize = values.len();
    if len == 0 || len as u64 > MAX_PIXELS {
        return None;
    }
    let (sum, squares) = sums(values);
    proof {
        lemma_spread_is_squared_deviation(values@);
    }
    let n: u128 = len as u128;
    let ghost s1 = sum as int;
    let ghost s2 = squares as int;
    assert(0 <= n * s2 <= 0xFFFF_FFFF * (0x4000_0000 * 0xFFFF_FFFF)) by (nonlinear_arith)
        requires
            0 < n <= 0xFFFF_FFFF,
            0 <= s2 <= 0x4000_0000 * n,
    ;
    assert(0 <= s1 * s1 <= (32768 * 0xFFFF_FFFF) * (32768 * 0xFFFF_FFFF)) by (nonlinear_arith)
        requires
            0 < n <= 0xFFFF_FFFF,
            -32768 * n <= s1 <= 32768 * n,
    ;
    assert(0 < n * n <= 0xFFFF_FFFF * 0xFFFF_FFFF) by (nonlinear_arith)
        requires
            0 < n <= 0xFFFF_FFFF,
    ;
    let weighted: u128 = n * (squares as u128);
    let magnitude: u128 = magnitude_of(sum) as u128;
    assert(magnitude * magnitude == s1 * s1) by (nonlinear_arith)
        requires
            magnitude == s1 || magnitude == -s1,
    ;
    let squared_sum: u128 = magnitude * magnitude;
    let spread_n: u128 = weighted - squared_sum;
    let count_squared: u128 = n * n;
    assert(spread_n * 1_000_000 <= 0xFFFF_FFFF * (0x4000_0000 * 0xFFFF_FFFF) * 1_000_000)
        by (nonlinear_arith)
        requires
            spread_n <= 0xFFFF_FFFF * (0x4000_0000 * 0xFFFF_FFFF),
    ;
    let scaled: u128 = spread_n * (MICROS_PER_UNIT as u128);
    let quotient: u128 = scaled / count_squared;
    proof {
        assert(spread_n == spread(values@));
        assert(scaled == MICROS_PER_UNIT * spread(values@));
        assert(scaled <= (0x4000_0000 * 1_000_000int) * count_squared) by (nonlinear_arith)
            requires
                scaled == 1_000_000 * spread_n,
                spread_n <= n * s2,
                0 <= s2 <= 0x4000_0000 * n,
                count_squared == n * n,
                0 < n,
        ;
        let ceiling: int = 0x4000_0000int * 1_000_000int;
        vstd::arithmetic::div_mod::lemma_div_is_ordered(
            scaled as int,
            ceiling * count_squared,
            count_squared as int,
        );
        vstd::arithmetic::div_mod::lemma_div_by_multiple(ceiling, count_squared as int);
    }
    Some(quotient as u64)
}

/// The mean of `values` in millionths, rounded toward zero. There is a
/// result exactly when there is at least one value and no more than
/// `MAX_PIXELS` of them.
pub fn population_mean(values: &Vec<i16>) -> (r: Option<i64>)
    ensures
        r is Some <==> 0 < values@.len() <= MAX_PIXELS,
        r matches Some(m) ==> m == mean_micros(values@),
{
    let len: usize = values.len();
    if len == 0 || len as u64 > MAX_PIXELS {
        return None;
    }
    let (sum, _) = sums(values);
    let n: u128 = len as u128;
    let magnitude: u128 = magnitude_of(sum) as u128;
    assert(magnitude * 1_000_000 <= 32768 * 0xFFFF_FFFF * 1_000_000) by (nonlinear_arith)
        requires
            magnitude <= 32768 * n,
            n <= 0xFFFF_FFFF,
    ;
    let scaled: u128 = magnitude * (MICROS_PER_UNIT as u128);
    let quotient: u128 = scaled / n;
    proof {
        let ceiling: int = 32768int * 1_000_000int;
        assert(scaled <= ceiling * n) by (nonlinear_arith)
            requires
                scaled == magnitude * 1_000_000,
                magnitude <= 32768 * n,
                ceiling == 32768int * 1_000_000int,
        ;
        vstd::arithmetic::div_mod::lemma_div_is_ordered(scaled as int, ceiling * n, n as int);
        vstd::arithmetic::div_mod::lemma_div_by_multiple(ceiling, n as int);
    }
    if sum < 0 {
        Some(-(quotient as i64))
    } else {
        Some(quotient as i64)
    }
}

} // verus!
