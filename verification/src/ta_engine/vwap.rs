use crate::models::candle::Candle;
use crate::models::indicator::{VwapPoint, VwapResult};
use crate::scalar::{whole, Scalar};
use crate::series::stands_on;
use vstd::prelude::*;

verus! {

/// The typical price of a candle: the mean of its high, low and close.
pub open spec fn typical_price<V: Scalar>(c: Candle<V>) -> V {
    c.high.plus(c.low).plus(c.close).over(whole::<V>(3))
}

/// The typical prices of `candles[start..end]`, each times its volume,
/// added up from the left.
pub open spec fn traded_value<V: Scalar>(candles: Seq<Candle<V>>, start: int, end: int) -> V
    decreases end - start,
{
    if end <= start {
        whole::<V>(0)
    } else {
        traded_value(candles, start, end - 1).plus(
            typical_price(candles[end - 1]).times(candles[end - 1].volume),
        )
    }
}

/// The volumes of `candles[start..end]`, none counted below zero, added up
/// from the left.
pub open spec fn traded_volume<V: Scalar>(candles: Seq<Candle<V>>, start: int, end: int) -> V
    decreases end - start,
{
    if end <= start {
        whole::<V>(0)
    } else {
        traded_volume(candles, start, end - 1).plus(
            candles[end - 1].volume.larger(whole::<V>(0)),
        )
    }
}

/// The volume-weighted average price at candle `i`, the sums running from
/// candle `start`: the traded value over the traded volume, or the
/// candle's typical price where no volume to speak of was traded.
pub open spec fn vwap_value<V: Scalar>(candles: Seq<Candle<V>>, start: int, i: int) -> V {
    if V::epsilon().below(traded_volume(candles, start, i + 1)) {
        traded_value(candles, start, i + 1).over(traded_volume(candles, start, i + 1))
    } else {
        typical_price(candles[i])
    }
}

/// The average price from candle `start` on, one point for each candle.
pub open spec fn vwap_from<V: Scalar>(candles: Seq<Candle<V>>, start: int) -> Seq<VwapPoint<V>> {
    Seq::new(
        (candles.len() - start) as nat,
        |k: int|
            VwapPoint {
                time: candles[start + k].time,
                value: vwap_value(candles, start, start + k),
            },
    )
}

/// The typical price of a candle.
pub fn typical<V: Scalar>(c: &Candle<V>) -> (r: V)
    ensures
        r == typical_price(*c),
{
    c.high.plus(c.low).plus(c.close).over(whole(3))
}

/// The average price with its sums running from candle `start`.
pub fn calculate_from<V: Scalar>(candles: &[Candle<V>], start: usize) -> (r: Vec<VwapPoint<V>>)
    requires
        start <= candles@.len(),
    ensures
        r@ == vwap_from(candles@, start as int),
        r@.len() == candles@.len() - start,
        stands_on(r@, candles@, start as int),
{
    let n = candles.len();
    let mut data: Vec<VwapPoint<V>> = Vec::with_capacity(n - start);
    let mut value_sum: V = whole(0);
    let mut volume_sum: V = whole(0);
    let mut i: usize = start;
    while i < n
        invariant
            start <= i <= n,
            n == candles@.len(),
            value_sum == traded_value(candles@, start as int, i as int),
            volume_sum == traded_volume(candles@, start as int, i as int),
            data@.len() == i - start,
            forall|k: int|
                0 <= k < i - start ==> data@[k] == (VwapPoint {
                    time: candles@[start + k].time,
                    value: vwap_value(candles@, start as int, start + k),
                }),
        decreases n - i,
    {
        let c = candles[i];
        let price = typical(&c);
        value_sum = value_sum.plus(price.times(c.volume));
        volume_sum = volume_sum.plus(c.volume.larger(whole(0)));
        let value = if V::epsilon().below(volume_sum) {
            value_sum.over(volume_sum)
        } else {
            price
        };
        data.push(VwapPoint { time: c.time, value });
        i += 1;
    }
    assert(data@ =~= vwap_from(candles@, start as int));
    data
}

/// The volume-weighted average price of a series of candles, one point
/// for each candle.
pub fn calculate<V: Scalar>(candles: &[Candle<V>]) -> (r: VwapResult<V>)
    ensures
        r.data@.len() == candles@.len(),
        stands_on(r.data@, candles@, 0),
        r.data@ == vwap_from(candles@, 0),
{
    VwapResult { data: calculate_from(candles, 0) }
}

} // verus!
