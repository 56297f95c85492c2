use crate::models::candle::Candle;
use crate::models::indicator::{DonchianPoint, DonchianResult};
use crate::scalar::{whole, Scalar};
use crate::series::stands_on;
use crate::ta_engine::helpers::{
    highest_high, highest_high_spec, lowest_low, lowest_low_spec, window_count,
};
use vstd::prelude::*;

verus! {

/// The `k`-th point of the channel: the highest high and the lowest low of
/// the window, and the mean of the two.
pub open spec fn donchian_at<V: Scalar>(candles: Seq<Candle<V>>, period: usize, k: int) -> DonchianPoint<
    V,
> {
    let upper = highest_high_spec(candles, period)[k];
    let lower = lowest_low_spec(candles, period)[k];
    DonchianPoint {
        time: candles[k + period - 1].time,
        upper,
        middle: upper.plus(lower).over(whole::<V>(2)),
        lower,
    }
}

/// The Donchian channel of a series of candles.
pub open spec fn donchian_spec<V: Scalar>(candles: Seq<Candle<V>>, period: usize) -> Seq<
    DonchianPoint<V>,
> {
    Seq::new(window_count(candles.len(), period), |k: int| donchian_at(candles, period, k))
}

/// The Donchian channel of a series of candles.
pub fn calculate<V: Scalar>(candles: &[Candle<V>], period: usize) -> (r: DonchianResult<V>)
    ensures
        r.period == period,
        r.data@.len() == window_count(candles@.len(), period),
        stands_on(r.data@, candles@, period - 1),
        r.data@ == donchian_spec(candles@, period),
{
    let n = candles.len();
    let tops = highest_high(candles, period);
    let bottoms = lowest_low(candles, period);
    let mut data: Vec<DonchianPoint<V>> = Vec::with_capacity(tops.len());
    let mut k: usize = 0;
    while k < tops.len()
        invariant
            k <= tops@.len(),
            n == candles@.len(),
            tops@ == highest_high_spec(candles@, period),
            bottoms@ == lowest_low_spec(candles@, period),
            data@.len() == k,
            forall|j: int| 0 <= j < k ==> data@[j] == donchian_at(candles@, period, j),
        decreases tops@.len() - k,
    {
        let upper = tops[k];
        let lower = bottoms[k];
        data.push(
            DonchianPoint {
                time: candles[k + period - 1].time,
                upper,
                middle: upper.plus(lower).over(whole(2)),
                lower,
            },
        );
        k += 1;
    }
    assert(data@ =~= donchian_spec(candles@, period));
    DonchianResult { period, data }
}

} // verus!
