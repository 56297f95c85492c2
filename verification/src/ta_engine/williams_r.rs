use crate::models::candle::Candle;
use crate::models::indicator::{WillrPoint, WillrResult};
use crate::scalar::{negligible, whole, Scalar};
use crate::series::stands_on;
use crate::ta_engine::helpers::{
    highest_high, highest_high_spec, lowest_low, lowest_low_spec, window_count,
};
use vstd::prelude::*;

verus! {

/// How far `close` lies below `high`, in hundredths of the range from
/// `low` to `high`, negated; minus fifty where the range is too small to
/// divide by.
pub open spec fn percent_r<V: Scalar>(close: V, low: V, high: V) -> V {
    if negligible(high.minus(low)) {
        whole::<V>(-50i64)
    } else {
        whole::<V>(-100i64).times(high.minus(close)).over(high.minus(low))
    }
}

/// The `k`-th point of Williams %R; it stands on the last candle of the
/// `k`-th window.
pub open spec fn willr_at<V: Scalar>(candles: Seq<Candle<V>>, period: usize, k: int) -> WillrPoint<
    V,
> {
    WillrPoint {
        time: candles[k + period - 1].time,
        value: percent_r(
            candles[k + period - 1].close,
            lowest_low_spec(candles, period)[k],
            highest_high_spec(candles, period)[k],
        ),
    }
}

/// Williams %R of a series of candles.
pub open spec fn willr_spec<V: Scalar>(candles: Seq<Candle<V>>, period: usize) -> Seq<WillrPoint<V>> {
    Seq::new(window_count(candles.len(), period), |k: int| willr_at(candles, period, k))
}

/// Williams %R of a series of candles.
pub fn calculate<V: Scalar>(candles: &[Candle<V>], period: usize) -> (r: WillrResult<V>)
    ensures
        r.period == period,
        r.data@.len() == window_count(candles@.len(), period),
        stands_on(r.data@, candles@, period - 1),
        r.data@ == willr_spec(candles@, period),
{
    let n = candles.len();
    let tops = highest_high(candles, period);
    let bottoms = lowest_low(candles, period);
    let mut data: Vec<WillrPoint<V>> = Vec::with_capacity(tops.len());
    let mut k: usize = 0;
    while k < tops.len()
        invariant
            k <= tops@.len(),
            n == candles@.len(),
            tops@ == highest_high_spec(candles@, period),
            bottoms@ == lowest_low_spec(candles@, period),
            data@.len() == k,
            forall|j: int| 0 <= j < k ==> data@[j] == willr_at(candles@, period, j),
        decreases tops@.len() - k,
    {
        let high = tops[k];
        let low = bottoms[k];
        let close = candles[k + period - 1].close;
        let range = high.minus(low);
        let value = if negligible(range) {
            whole(-50)
        } else {
            whole::<V>(-100).times(high.minus(close)).over(range)
        };
        data.push(WillrPoint { time: candles[k + period - 1].time, value });
        k += 1;
    }
    assert(data@ =~= willr_spec(candles@, period));
    WillrResult { period, data }
}

} // verus!
