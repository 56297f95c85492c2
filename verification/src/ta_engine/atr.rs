use crate::models::candle::Candle;
use crate::models::indicator::{AtrPoint, AtrResult};
use crate::scalar::Scalar;
use crate::series::stands_on;
use crate::ta_engine::helpers::{true_ranges, true_ranges_of, wilder, wilder_seq, window_count};
use vstd::prelude::*;

verus! {

/// The average true range: Wilder's average of the true ranges, each
/// point on the last candle of its window.
pub open spec fn atr_spec<V: Scalar>(candles: Seq<Candle<V>>, period: usize) -> Seq<AtrPoint<V>> {
    let averages = wilder_seq(true_ranges_of(candles), period);
    Seq::new(
        averages.len(),
        |k: int| AtrPoint { time: candles[k + period - 1].time, value: averages[k] },
    )
}

/// The average true range of a series of candles.
pub fn calculate<V: Scalar>(candles: &[Candle<V>], period: usize) -> (r: AtrResult<V>)
    ensures
        r.period == period,
        r.data@.len() == window_count(candles@.len(), period),
        stands_on(r.data@, candles@, period - 1),
        r.data@ == atr_spec(candles@, period),
{
    let ranges = true_ranges(candles);
    let averages = wilder(ranges.as_slice(), period);
    let n = candles.len();
    let mut data: Vec<AtrPoint<V>> = Vec::with_capacity(averages.len());
    let mut k: usize = 0;
    while k < averages.len()
        invariant
            k <= averages@.len(),
            n == candles@.len(),
            averages@ == wilder_seq(true_ranges_of(candles@), period),
            data@.len() == k,
            forall|j: int| 0 <= j < k ==> data@[j] == atr_spec(candles@, period)[j],
        decreases averages@.len() - k,
    {
        data.push(AtrPoint { time: candles[k + period - 1].time, value: averages[k] });
        k += 1;
    }
    assert(data@ =~= atr_spec(candles@, period));
    AtrResult { period, data }
}

} // verus!
