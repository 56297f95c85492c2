use crate::models::candle::Candle;
use crate::models::indicator::{MaPoint, MovingAverageResult};
use crate::scalar::{whole, Scalar};
use crate::series::{closes, closes_of, stands_on, sum_of, sum_range};
use crate::ta_engine::helpers::window_count;
use crate::ta_engine::sma::{ma_points, ma_points_spec};
use vstd::prelude::*;

verus! {

/// The weight of the newest value in an exponential average: two over the
/// period plus one.
pub open spec fn ema_multiplier<V: Scalar>(period: usize) -> V {
    whole::<V>(2).over(V::from_count(period).plus(whole::<V>(1)))
}

/// The `k`-th value of the exponential moving average. The first is the
/// mean of the first `period` values; each later one moves the one before
/// towards the newest value by the multiplier's share of their difference.
pub open spec fn ema_at<V: Scalar>(values: Seq<V>, period: usize, k: int) -> V
    decreases k,
{
    if k <= 0 {
        sum_range(values, 0, period as int).over(V::from_count(period))
    } else {
        let before = ema_at(values, period, k - 1);
        values[k + period - 1].minus(before).times(ema_multiplier::<V>(period)).plus(before)
    }
}

/// The exponential moving average of a series of values.
pub open spec fn ema_seq<V: Scalar>(values: Seq<V>, period: usize) -> Seq<V> {
    Seq::new(window_count(values.len(), period), |k: int| ema_at(values, period, k))
}

/// The exponential moving average of the closes; each point stands on the
/// last candle of its window.
pub fn calculate<V: Scalar>(candles: &[Candle<V>], period: usize) -> (r: MovingAverageResult<V>)
    ensures
        r.period == period,
        r.data@.len() == window_count(candles@.len(), period),
        stands_on(r.data@, candles@, period - 1),
        r.data@ == ma_points_spec(ema_seq(closes_of(candles@), period), candles@, period - 1),
{
    let values = closes(candles);
    let averages = calculate_from_values(values.as_slice(), period);
    if averages.len() == 0 {
        let data: Vec<MaPoint<V>> = Vec::new();
        assert(data@ =~= ma_points_spec(ema_seq(closes_of(candles@), period), candles@, period - 1));
        return MovingAverageResult { period, data };
    }
    let data = ma_points(&averages, candles, period - 1);
    MovingAverageResult { period, data }
}

/// The exponential moving average of a series of values.
pub fn calculate_from_values<V: Scalar>(values: &[V], period: usize) -> (r: Vec<V>)
    ensures
        r@ == ema_seq(values@, period),
{
    let mut result: Vec<V> = Vec::new();
    if values.len() < period || period == 0 {
        assert(result@ =~= ema_seq(values@, period));
        return result;
    }
    let count = values.len() - period + 1;
    let multiplier: V = whole::<V>(2).over(V::from_count(period).plus(whole::<V>(1)));
    let mut prev = sum_of(values, 0, period).over(V::from_count(period));
    result.push(prev);
    let mut k: usize = 1;
    while k < count
        invariant
            1 <= k <= count,
            count == values@.len() - period + 1,
            values@.len() <= usize::MAX,
            period > 0,
            multiplier == ema_multiplier::<V>(period),
            prev == ema_at(values@, period, k - 1),
            result@.len() == k,
            forall|j: int| 0 <= j < k ==> result@[j] == ema_at(values@, period, j),
        decreases count - k,
    {
        prev = values[k + period - 1].minus(prev).times(multiplier).plus(prev);
        result.push(prev);
        k += 1;
    }
    assert(result@ =~= ema_seq(values@, period));
    result
}

} // verus!
