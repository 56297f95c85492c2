use crate::models::candle::Candle;
use crate::models::indicator::{ChoppinessPoint, ChoppinessResult};
use crate::scalar::{clamp, negligible, whole, Scalar};
use crate::series::{stands_on, sum_of, sum_range};
use crate::ta_engine::helpers::{
    highest_high, highest_high_spec, lowest_low, lowest_low_spec, true_ranges, true_ranges_of,
};
use vstd::prelude::*;

verus! {

/// How many points the index has: one for each window of `period`
/// candles, but none for a period under two or for fewer than
/// `period + 1` candles.
pub open spec fn choppiness_count(n: nat, period: usize) -> nat {
    if period < 2 || n <= period {
        0
    } else {
        (n - period + 1) as nat
    }
}

/// The index of one window: how the sum of its true ranges compares with
/// its whole range, on a logarithmic scale from zero to one hundred;
/// fifty where the range, or the logarithm of the period, is too small to
/// divide by.
pub open spec fn chop_value<V: Scalar>(range_sum: V, high: V, low: V, period: usize) -> V {
    let scale = V::from_count(period).log10();
    let raw = if negligible(high.minus(low)) || negligible(scale) {
        whole::<V>(50)
    } else {
        whole::<V>(100).times(range_sum.over(high.minus(low)).log10()).over(scale)
    };
    clamp(raw, whole::<V>(0), whole::<V>(100))
}

/// The `k`-th point of the index; it stands on the last candle of the
/// `k`-th window.
pub open spec fn choppiness_at<V: Scalar>(candles: Seq<Candle<V>>, period: usize, k: int) -> ChoppinessPoint<
    V,
> {
    ChoppinessPoint {
        time: candles[k + period - 1].time,
        value: chop_value(
            sum_range(true_ranges_of(candles), k, k + period),
            highest_high_spec(candles, period)[k],
            lowest_low_spec(candles, period)[k],
            period,
        ),
    }
}

/// The choppiness index of a series of candles.
pub open spec fn choppiness_spec<V: Scalar>(candles: Seq<Candle<V>>, period: usize) -> Seq<
    ChoppinessPoint<V>,
> {
    Seq::new(choppiness_count(candles.len(), period), |k: int| choppiness_at(candles, period, k))
}

/// The choppiness index of a series of candles; each point stands on the
/// last candle of its window.
pub fn calculate<V: Scalar>(candles: &[Candle<V>], period: usize) -> (r: ChoppinessResult<V>)
    ensures
        r.period == period,
        r.data@.len() == choppiness_count(candles@.len(), period),
        stands_on(r.data@, candles@, period - 1),
        r.data@ == choppiness_spec(candles@, period),
{
    let mut data: Vec<ChoppinessPoint<V>> = Vec::new();
    let n = candles.len();
    if period < 2 || n <= period {
        assert(data@ =~= choppiness_spec(candles@, period));
        return ChoppinessResult { period, data };
    }
    let ranges = true_ranges(candles);
    let tops = highest_high(candles, period);
    let bottoms = lowest_low(candles, period);
    let scale = V::from_count(period).log10();
    let count = n - period + 1;
    let mut k: usize = 0;
    while k < count
        invariant
            k <= count,
            count == n - period + 1,
            n == candles@.len(),
            2 <= period < n,
            ranges@ == true_ranges_of(candles@),
            tops@ == highest_high_spec(candles@, period),
            bottoms@ == lowest_low_spec(candles@, period),
            scale == V::from_count(period).log10(),
            data@.len() == k,
            forall|j: int| 0 <= j < k ==> data@[j] == choppiness_at(candles@, period, j),
        decreases count - k,
    {
        let range_sum = sum_of(ranges.as_slice(), k, k + period);
        let range = tops[k].minus(bottoms[k]);
        let raw = if negligible(range) || negligible(scale) {
            whole(50)
        } else {
            whole::<V>(100).times(range_sum.over(range).log10()).over(scale)
        };
        data.push(
            ChoppinessPoint {
                time: candles[k + period - 1].time,
                value: clamp(raw, whole(0), whole(100)),
            },
        );
        k += 1;
    }
    assert(data@ =~= choppiness_spec(candles@, period));
    ChoppinessResult { period, data }
}

} // verus!
