use crate::models::candle::Candle;
use crate::models::indicator::{MaPoint, MovingAverageResult};
use crate::scalar::Scalar;
use crate::series::{closes, closes_of, stands_on, sum_of, sum_range};
use crate::ta_engine::helpers::window_count;
use vstd::prelude::*;

verus! {

/// The sum of the `k`-th window of `period` values, kept up from window to
/// window: the first is added up from the left, each later one is the one
/// before plus the difference of the value that enters and the value that
/// leaves.
pub open spec fn rolling_sum<V: Scalar>(values: Seq<V>, period: int, k: int) -> V
    decreases k,
{
    if k <= 0 {
        sum_range(values, 0, period)
    } else {
        rolling_sum(values, period, k - 1).plus(values[k + period - 1].minus(values[k - 1]))
    }
}

/// The simple moving average: the `k`-th value is the rolling sum of the
/// `k`-th window over the period.
pub open spec fn sma_seq<V: Scalar>(values: Seq<V>, period: usize) -> Seq<V> {
    Seq::new(
        window_count(values.len(), period),
        |k: int| rolling_sum(values, period as int, k).over(V::from_count(period)),
    )
}

/// The points that put each value on the candle `offset` places further
/// on.
pub open spec fn ma_points_spec<V>(values: Seq<V>, candles: Seq<Candle<V>>, offset: int) -> Seq<
    MaPoint<V>,
> {
    Seq::new(values.len(), |k: int| MaPoint { time: candles[k + offset].time, value: values[k] })
}

/// The points that put each value on the candle `offset` places further
/// on.
pub fn ma_points<V: Scalar>(values: &Vec<V>, candles: &[Candle<V>], offset: usize) -> (r: Vec<
    MaPoint<V>,
>)
    requires
        values@.len() > 0 ==> values@.len() + offset <= candles@.len(),
    ensures
        r@ == ma_points_spec(values@, candles@, offset as int),
        stands_on(r@, candles@, offset as int),
{
    let mut data: Vec<MaPoint<V>> = Vec::with_capacity(values.len());
    let n = candles.len();
    let mut k: usize = 0;
    while k < values.len()
        invariant
            k <= values@.len(),
            values@.len() > 0 ==> values@.len() + offset <= candles@.len(),
            candles@.len() <= usize::MAX,
            data@.len() == k,
            forall|j: int|
                0 <= j < k ==> data@[j] == (MaPoint {
                    time: candles@[j + offset].time,
                    value: values@[j],
                }),
        decreases values@.len() - k,
    {
        data.push(MaPoint { time: candles[k + offset].time, value: values[k] });
        k += 1;
    }
    assert(data@ =~= ma_points_spec(values@, candles@, offset as int));
    data
}

/// The simple moving average of the closes; each point stands on the last
/// candle of its window.
pub fn calculate<V: Scalar>(candles: &[Candle<V>], period: usize) -> (r: MovingAverageResult<V>)
    ensures
        r.period == period,
        r.data@.len() == window_count(candles@.len(), period),
        stands_on(r.data@, candles@, period - 1),
        r.data@ == ma_points_spec(sma_seq(closes_of(candles@), period), candles@, period - 1),
{
    let values = closes(candles);
    let averages = calculate_from_values(values.as_slice(), period);
    if averages.len() == 0 {
        let data: Vec<MaPoint<V>> = Vec::new();
        assert(data@ =~= ma_points_spec(sma_seq(closes_of(candles@), period), candles@, period - 1));
        return MovingAverageResult { period, data };
    }
    let data = ma_points(&averages, candles, period - 1);
    MovingAverageResult { period, data }
}

/// The simple moving average of a series of values.
pub fn calculate_from_values<V: Scalar>(values: &[V], period: usize) -> (r: Vec<V>)
    ensures
        r@ == sma_seq(values@, period),
{
    let mut result: Vec<V> = Vec::new();
    if values.len() < period || period == 0 {
        assert(result@ =~= sma_seq(values@, period));
        return result;
    }
    let count = values.len() - period + 1;
    let mut sum = sum_of(values, 0, period);
    result.push(sum.over(V::from_count(period)));
    let mut k: usize = 1;
    while k < count
        invariant
            1 <= k <= count,
            count == values@.len() - period + 1,
            values@.len() <= usize::MAX,
            period > 0,
            sum == rolling_sum(values@, period as int, k - 1),
            result@.len() == k,
            forall|j: int| 0 <= j < k ==> result@[j] == sma_seq(values@, period)[j],
        decreases count - k,
    {
        sum = sum.plus(values[k + period - 1].minus(values[k - 1]));
        result.push(sum.over(V::from_count(period)));
        k += 1;
    }
    assert(result@ =~= sma_seq(values@, period));
    result
}

} // verus!
