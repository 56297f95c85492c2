use crate::models::candle::Candle;
use crate::models::indicator::BollingerBandsPoint;
use crate::scalar::{whole, Scalar};
use crate::series::{closes, closes_of, stands_on, sum_of, sum_range};
use crate::ta_engine::helpers::window_count;
use vstd::prelude::*;

verus! {

/// The squared distances of `s[lo..hi]` from `mean`, added up from the
/// left.
pub open spec fn squared_deviations<V: Scalar>(s: Seq<V>, mean: V, lo: int, hi: int) -> V
    decreases hi - lo,
{
    if hi <= lo {
        whole::<V>(0)
    } else {
        squared_deviations(s, mean, lo, hi - 1).plus(
            s[hi - 1].minus(mean).times(s[hi - 1].minus(mean)),
        )
    }
}

/// The mean of the `k`-th window of `period` values.
pub open spec fn window_mean<V: Scalar>(values: Seq<V>, period: usize, k: int) -> V {
    sum_range(values, k, k + period).over(V::from_count(period))
}

/// The population standard deviation of the `k`-th window: the root of the
/// mean squared distance from the window's mean.
pub open spec fn window_deviation<V: Scalar>(values: Seq<V>, period: usize, k: int) -> V {
    squared_deviations(values, window_mean(values, period, k), k, k + period).over(
        V::from_count(period),
    ).root()
}

/// The bands on the `k`-th window: the mean, and `multiplier` standard
/// deviations above and below it.
pub open spec fn bands_at<V: Scalar>(
    candles: Seq<Candle<V>>,
    period: usize,
    multiplier: V,
    k: int,
) -> BollingerBandsPoint<V> {
    let mean = window_mean(closes_of(candles), period, k);
    let width = multiplier.times(window_deviation(closes_of(candles), period, k));
    BollingerBandsPoint {
        time: candles[k + period - 1].time,
        upper: mean.plus(width),
        middle: mean,
        lower: mean.minus(width),
    }
}

/// The Bollinger bands of a series of candles.
pub open spec fn bollinger_spec<V: Scalar>(
    candles: Seq<Candle<V>>,
    period: usize,
    multiplier: V,
) -> Seq<BollingerBandsPoint<V>> {
    Seq::new(
        window_count(candles.len(), period),
        |k: int| bands_at(candles, period, multiplier, k),
    )
}

fn squared_deviations_of<V: Scalar>(values: &[V], mean: V, lo: usize, hi: usize) -> (r: V)
    requires
        lo <= hi <= values@.len(),
    ensures
        r == squared_deviations(values@, mean, lo as int, hi as int),
{
    let mut acc: V = whole(0);
    let mut i: usize = lo;
    while i < hi
        invariant
            lo <= i <= hi <= values@.len(),
            acc == squared_deviations(values@, mean, lo as int, i as int),
        decreases hi - i,
    {
        let distance = values[i].minus(mean);
        acc = acc.plus(distance.times(distance));
        i += 1;
    }
    acc
}

/// The Bollinger bands of the closes; each point stands on the last
/// candle of its window.
pub fn calculate<V: Scalar>(candles: &[Candle<V>], period: usize, multiplier: V) -> (r: Vec<
    BollingerBandsPoint<V>,
>)
    ensures
        r@.len() == window_count(candles@.len(), period),
        stands_on(r@, candles@, period - 1),
        r@ == bollinger_spec(candles@, period, multiplier),
{
    let mut result: Vec<BollingerBandsPoint<V>> = Vec::new();
    if candles.len() < period || period == 0 {
        assert(result@ =~= bollinger_spec(candles@, period, multiplier));
        return result;
    }
    let values = closes(candles);
    let count = candles.len() - period + 1;
    let mut k: usize = 0;
    while k < count
        invariant
            k <= count,
            count == candles@.len() - period + 1,
            candles@.len() <= usize::MAX,
            period > 0,
            values@ == closes_of(candles@),
            result@.len() == k,
            forall|j: int| 0 <= j < k ==> result@[j] == bands_at(candles@, period, multiplier, j),
        decreases count - k,
    {
        let mean = sum_of(values.as_slice(), k, k + period).over(V::from_count(period));
        let variance = squared_deviations_of(values.as_slice(), mean, k, k + period).over(
            V::from_count(period),
        );
        let width = multiplier.times(variance.root());
        result.push(
            BollingerBandsPoint {
                time: candles[k + period - 1].time,
                upper: mean.plus(width),
                middle: mean,
                lower: mean.minus(width),
            },
        );
        k += 1;
    }
    assert(result@ =~= bollinger_spec(candles@, period, multiplier));
    result
}

} // verus!
