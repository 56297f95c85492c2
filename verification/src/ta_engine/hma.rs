use crate::models::candle::Candle;
use crate::models::indicator::{MaPoint, MovingAverageResult};
use crate::scalar::{whole, Scalar};
use crate::series::{closes, closes_of, stands_on};
use crate::ta_engine::helpers::window_count;
use crate::ta_engine::sma::{ma_points, ma_points_spec};
use crate::ta_engine::wma;
use crate::ta_engine::wma::wma_seq;
use vstd::prelude::*;

verus! {

/// Whether `r` is the whole part of the square root of `n`.
pub open spec fn is_sqrt_floor(n: usize, r: usize) -> bool {
    r * r <= n < (r + 1) * (r + 1)
}

/// The whole part of the square root of `n`.
pub open spec fn sqrt_floor(n: usize) -> usize {
    choose|r: usize| is_sqrt_floor(n, r)
}

proof fn lemma_sqrt_floor_unique(n: usize, a: usize, b: usize)
    requires
        is_sqrt_floor(n, a),
        is_sqrt_floor(n, b),
    ensures
        a == b,
{
    if a < b {
        assert((a + 1) * (a + 1) <= b * b) by (nonlinear_arith)
            requires
                a + 1 <= b,
        ;
    } else if b < a {
        assert((b + 1) * (b + 1) <= a * a) by (nonlinear_arith)
            requires
                b + 1 <= a,
        ;
    }
}

/// The whole part of the square root of `n`.
pub fn isqrt(n: usize) -> (r: usize)
    ensures
        is_sqrt_floor(n, r),
        r == sqrt_floor(n),
{
    let mut lo: usize = 0;
    let mut hi: usize = if n < 0xffff_ffff {
        n
    } else {
        0xffff_ffff
    };
    assert(hi * hi <= 0xffff_ffff * 0xffff_ffff) by (nonlinear_arith)
        requires
            hi <= 0xffff_ffff,
    ;
    assert((hi + 1) * (hi + 1) > n) by (nonlinear_arith)
        requires
            hi == n || (hi == 0xffff_ffff && n <= 0xffff_ffff_ffff_ffff),
    ;
    while lo < hi
        invariant
            lo <= hi <= 0xffff_ffff,
            lo * lo <= n,
            (hi + 1) * (hi + 1) > n,
        decreases hi - lo,
    {
        let mid: usize = hi - (hi - lo) / 2;
        assert(mid * mid <= 0xffff_ffff * 0xffff_ffff) by (nonlinear_arith)
            requires
                mid <= 0xffff_ffff,
        ;
        let square: u64 = (mid as u64) * (mid as u64);
        if square <= n as u64 {
            lo = mid;
        } else {
            hi = mid - 1;
        }
    }
    proof {
        let c = sqrt_floor(n);
        assert(is_sqrt_floor(n, lo));
        lemma_sqrt_floor_unique(n, lo, c);
    }
    lo
}

/// Half the period, but at least one: the window of the fast average.
pub open spec fn half_period(period: usize) -> usize {
    if period / 2 < 1 {
        1
    } else {
        period / 2
    }
}

/// The series that the final average smooths: twice the fast weighted
/// average less the slow one, each pair taken at the same value.
pub open spec fn hull_diff<V: Scalar>(values: Seq<V>, period: usize) -> Seq<V> {
    let fast = wma_seq(values, half_period(period));
    let slow = wma_seq(values, period);
    Seq::new(
        slow.len(),
        |i: int| whole::<V>(2).times(fast[i + period - half_period(period)]).minus(slow[i]),
    )
}

/// The Hull moving average: the weighted average, over the root of the
/// period, of the difference series. It is empty for a period under two.
pub open spec fn hma_seq<V: Scalar>(values: Seq<V>, period: usize) -> Seq<V> {
    if period < 2 || values.len() < period {
        Seq::empty()
    } else {
        wma_seq(hull_diff(values, period), sqrt_floor(period))
    }
}

/// The candle that the first point of the Hull average stands on.
pub open spec fn hma_offset(period: usize) -> int {
    period - 1 + sqrt_floor(period) - 1
}

/// The Hull moving average of the closes.
pub fn calculate<V: Scalar>(candles: &[Candle<V>], period: usize) -> (r: MovingAverageResult<V>)
    ensures
        r.period == period,
        r.data@.len() == (if period < 2 {
            0
        } else {
            window_count(window_count(candles@.len(), period), sqrt_floor(period))
        }),
        stands_on(r.data@, candles@, hma_offset(period)),
        r.data@ == ma_points_spec(
            hma_seq(closes_of(candles@), period),
            candles@,
            hma_offset(period),
        ),
{
    let values = closes(candles);
    let averages = calculate_from_values(values.as_slice(), period);
    if averages.len() == 0 {
        let data: Vec<MaPoint<V>> = Vec::new();
        assert(data@ =~= ma_points_spec(
            hma_seq(closes_of(candles@), period),
            candles@,
            hma_offset(period),
        ));
        return MovingAverageResult { period, data };
    }
    let root = isqrt(period);
    assert(root >= 1) by (nonlinear_arith)
        requires
            is_sqrt_floor(period, root),
            period >= 2,
    ;
    let n = candles.len();
    assert(averages@.len() == window_count(window_count(n as nat, period), root));
    let data = ma_points(&averages, candles, period - 1 + root - 1);
    MovingAverageResult { period, data }
}

/// The Hull moving average of a series of values.
pub fn calculate_from_values<V: Scalar>(values: &[V], period: usize) -> (r: Vec<V>)
    ensures
        r@ == hma_seq(values@, period),
        r@.len() == (if period < 2 {
            0
        } else {
            window_count(window_count(values@.len(), period), sqrt_floor(period))
        }),
{
    if period < 2 || values.len() < period {
        let empty: Vec<V> = Vec::new();
        assert(empty@ =~= hma_seq(values@, period));
        return empty;
    }
    let half = if period / 2 < 1 {
        1
    } else {
        period / 2
    };
    let root = isqrt(period);
    let fast = wma::calculate_from_values(values, half);
    let slow = wma::calculate_from_values(values, period);
    let offset = period - half;
    let mut diff: Vec<V> = Vec::with_capacity(slow.len());
    let mut i: usize = 0;
    while i < slow.len()
        invariant
            i <= slow@.len(),
            slow@ == wma_seq(values@, period),
            fast@ == wma_seq(values@, half),
            half == half_period(period),
            offset == period - half,
            2 <= period <= values@.len(),
            values@.len() <= usize::MAX,
            diff@.len() == i,
            forall|j: int| 0 <= j < i ==> diff@[j] == hull_diff(values@, period)[j],
        decreases slow@.len() - i,
    {
        diff.push(whole::<V>(2).times(fast[i + offset]).minus(slow[i]));
        i += 1;
    }
    assert(diff@ =~= hull_diff(values@, period));
    wma::calculate_from_values(diff.as_slice(), root)
}

} // verus!
