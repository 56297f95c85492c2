use crate::models::candle::Candle;
use crate::models::indicator::RsiPoint;
use crate::scalar::{whole, Scalar};
use crate::series::{closes, closes_of, stands_on, sum_of, sum_range};
use crate::ta_engine::helpers::wilder_average;
use vstd::prelude::*;

verus! {

/// The gain from close `i` to close `i + 1`: their difference where it is
/// above zero, else zero.
pub open spec fn gain_at<V: Scalar>(values: Seq<V>, i: int) -> V {
    let change = values[i + 1].minus(values[i]);
    if whole::<V>(0).below(change) {
        change
    } else {
        whole::<V>(0)
    }
}

/// The loss from close `i` to close `i + 1`: their difference negated
/// where it is below zero, else zero.
pub open spec fn loss_at<V: Scalar>(values: Seq<V>, i: int) -> V {
    let change = values[i + 1].minus(values[i]);
    if change.below(whole::<V>(0)) {
        change.negated()
    } else {
        whole::<V>(0)
    }
}

/// The gains between neighbouring values.
pub open spec fn gains_of<V: Scalar>(values: Seq<V>) -> Seq<V> {
    Seq::new((values.len() - 1) as nat, |i: int| gain_at(values, i))
}

/// The losses between neighbouring values.
pub open spec fn losses_of<V: Scalar>(values: Seq<V>) -> Seq<V> {
    Seq::new((values.len() - 1) as nat, |i: int| loss_at(values, i))
}

/// The index that an average gain and an average loss give: one hundred
/// where nothing was lost, else `100 - 100 / (1 + gain / loss)`.
pub open spec fn strength_index<V: Scalar>(average_gain: V, average_loss: V) -> V {
    if average_loss.same(whole::<V>(0)) {
        whole::<V>(100)
    } else {
        whole::<V>(100).minus(
            whole::<V>(100).over(whole::<V>(1).plus(average_gain.over(average_loss))),
        )
    }
}

/// How many points the index has: one for each candle after the first
/// `period`.
pub open spec fn rsi_count(n: nat, period: usize) -> nat {
    if period == 0 || n <= period {
        0
    } else {
        (n - period) as nat
    }
}

/// The `k`-th point of the index; it stands on candle `k + period`.
pub open spec fn rsi_at<V: Scalar>(candles: Seq<Candle<V>>, period: usize, k: int) -> RsiPoint<V> {
    RsiPoint {
        time: candles[k + period].time,
        value: strength_index(
            wilder_average(gains_of(closes_of(candles)), period, k),
            wilder_average(losses_of(closes_of(candles)), period, k),
        ),
    }
}

/// The relative strength index of a series of candles.
pub open spec fn rsi_spec<V: Scalar>(candles: Seq<Candle<V>>, period: usize) -> Seq<RsiPoint<V>> {
    Seq::new(rsi_count(candles.len(), period), |k: int| rsi_at(candles, period, k))
}

fn strength<V: Scalar>(average_gain: V, average_loss: V) -> (r: V)
    ensures
        r == strength_index(average_gain, average_loss),
{
    if average_loss.same(whole(0)) {
        whole(100)
    } else {
        whole::<V>(100).minus(
            whole::<V>(100).over(whole::<V>(1).plus(average_gain.over(average_loss))),
        )
    }
}

/// The relative strength index of the closes, with Wilder's smoothing.
pub fn calculate<V: Scalar>(candles: &[Candle<V>], period: usize) -> (r: Vec<RsiPoint<V>>)
    ensures
        r@.len() == rsi_count(candles@.len(), period),
        stands_on(r@, candles@, period as int),
        r@ == rsi_spec(candles@, period),
{
    let mut result: Vec<RsiPoint<V>> = Vec::new();
    if period == 0 || candles.len() <= period {
        assert(result@ =~= rsi_spec(candles@, period));
        return result;
    }
    let values = closes(candles);
    let n = candles.len();
    let mut gains: Vec<V> = Vec::with_capacity(n - 1);
    let mut losses: Vec<V> = Vec::with_capacity(n - 1);
    let mut i: usize = 0;
    while i < n - 1
        invariant
            i <= n - 1,
            n == candles@.len(),
            values@ == closes_of(candles@),
            gains@.len() == i,
            losses@.len() == i,
            forall|j: int| 0 <= j < i ==> gains@[j] == gain_at(values@, j),
            forall|j: int| 0 <= j < i ==> losses@[j] == loss_at(values@, j),
        decreases n - 1 - i,
    {
        let change = values[i + 1].minus(values[i]);
        gains.push(
            if whole::<V>(0).below(change) {
                change
            } else {
                whole(0)
            },
        );
        losses.push(
            if change.below(whole(0)) {
                change.negated()
            } else {
                whole(0)
            },
        );
        i += 1;
    }
    assert(gains@ =~= gains_of(values@));
    assert(losses@ =~= losses_of(values@));
    let count = n - period;
    let weight: V = V::from_count(period).minus(whole(1));
    let mut average_gain = sum_of(gains.as_slice(), 0, period).over(V::from_count(period));
    let mut average_loss = sum_of(losses.as_slice(), 0, period).over(V::from_count(period));
    result.push(RsiPoint { time: candles[period].time, value: strength(average_gain, average_loss) });
    let mut k: usize = 1;
    while k < count
        invariant
            1 <= k <= count,
            count == n - period,
            n == candles@.len(),
            period > 0,
            values@ == closes_of(candles@),
            gains@ == gains_of(values@),
            losses@ == losses_of(values@),
            weight == V::from_count(period).minus(whole::<V>(1)),
            average_gain == wilder_average(gains@, period, k - 1),
            average_loss == wilder_average(losses@, period, k - 1),
            result@.len() == k,
            forall|j: int| 0 <= j < k ==> result@[j] == rsi_at(candles@, period, j),
        decreases count - k,
    {
        average_gain = average_gain.times(weight).plus(gains[k + period - 1]).over(
            V::from_count(period),
        );
        average_loss = average_loss.times(weight).plus(losses[k + period - 1]).over(
            V::from_count(period),
        );
        result.push(
            RsiPoint { time: candles[k + period].time, value: strength(average_gain, average_loss) },
        );
        k += 1;
    }
    assert(result@ =~= rsi_spec(candles@, period));
    result
}

} // verus!
