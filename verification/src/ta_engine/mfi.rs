use crate::models::candle::Candle;
use crate::models::indicator::{MfiPoint, MfiResult};
use crate::scalar::{negligible, whole, Scalar};
use crate::series::stands_on;
use crate::ta_engine::rsi::rsi_count;
use crate::ta_engine::vwap::{typical, typical_price};
use vstd::prelude::*;

verus! {

/// The typical prices of a series of candles.
pub open spec fn typical_prices<V: Scalar>(candles: Seq<Candle<V>>) -> Seq<V> {
    Seq::new(candles.len(), |i: int| typical_price(candles[i]))
}

/// The money that flowed in over `candles[start..end]`: typical price
/// times volume of each candle whose typical price is above the one
/// before, added up from the left.
pub open spec fn positive_flow<V: Scalar>(candles: Seq<Candle<V>>, start: int, end: int) -> V
    decreases end - start,
{
    if end <= start {
        whole::<V>(0)
    } else {
        let before = positive_flow(candles, start, end - 1);
        if typical_price(candles[end - 2]).below(typical_price(candles[end - 1])) {
            before.plus(typical_price(candles[end - 1]).times(candles[end - 1].volume))
        } else {
            before
        }
    }
}

/// The money that flowed out over `candles[start..end]`: typical price
/// times volume of each candle whose typical price is below the one
/// before and not above it, added up from the left.
pub open spec fn negative_flow<V: Scalar>(candles: Seq<Candle<V>>, start: int, end: int) -> V
    decreases end - start,
{
    if end <= start {
        whole::<V>(0)
    } else {
        let before = negative_flow(candles, start, end - 1);
        if !typical_price(candles[end - 2]).below(typical_price(candles[end - 1]))
            && typical_price(candles[end - 1]).below(typical_price(candles[end - 2])) {
            before.plus(typical_price(candles[end - 1]).times(candles[end - 1].volume))
        } else {
            before
        }
    }
}

/// The index that the two flows give: one hundred where next to nothing
/// flowed out, else `100 - 100 / (1 + in / out)`.
pub open spec fn flow_index<V: Scalar>(inflow: V, outflow: V) -> V {
    if negligible(outflow) {
        whole::<V>(100)
    } else {
        whole::<V>(100).minus(whole::<V>(100).over(whole::<V>(1).plus(inflow.over(outflow))))
    }
}

/// The `k`-th point of the index: the flows over the `period` candles
/// that end with candle `k + period`.
pub open spec fn mfi_at<V: Scalar>(candles: Seq<Candle<V>>, period: usize, k: int) -> MfiPoint<V> {
    MfiPoint {
        time: candles[k + period].time,
        value: flow_index(
            positive_flow(candles, k + 1, k + period + 1),
            negative_flow(candles, k + 1, k + period + 1),
        ),
    }
}

/// The money flow index of a series of candles.
pub open spec fn mfi_spec<V: Scalar>(candles: Seq<Candle<V>>, period: usize) -> Seq<MfiPoint<V>> {
    Seq::new(rsi_count(candles.len(), period), |k: int| mfi_at(candles, period, k))
}

/// The money flow index of a series of candles; the first point stands on
/// candle `period`.
pub fn calculate<V: Scalar>(candles: &[Candle<V>], period: usize) -> (r: MfiResult<V>)
    ensures
        r.period == period,
        r.data@.len() == rsi_count(candles@.len(), period),
        stands_on(r.data@, candles@, period as int),
        r.data@ == mfi_spec(candles@, period),
{
    let mut data: Vec<MfiPoint<V>> = Vec::new();
    let n = candles.len();
    if period == 0 || n <= period {
        assert(data@ =~= mfi_spec(candles@, period));
        return MfiResult { period, data };
    }
    let mut prices: Vec<V> = Vec::with_capacity(n);
    let mut i: usize = 0;
    while i < n
        invariant
            i <= n,
            n == candles@.len(),
            prices@.len() == i,
            forall|j: int| 0 <= j < i ==> prices@[j] == typical_price(candles@[j]),
        decreases n - i,
    {
        prices.push(typical(&candles[i]));
        i += 1;
    }
    let count = n - period;
    let mut k: usize = 0;
    while k < count
        invariant
            k <= count,
            count == n - period,
            n == candles@.len(),
            0 < period < n,
            prices@.len() == n,
            forall|j: int| 0 <= j < n ==> prices@[j] == typical_price(candles@[j]),
            data@.len() == k,
            forall|j: int| 0 <= j < k ==> data@[j] == mfi_at(candles@, period, j),
        decreases count - k,
    {
        let mut inflow: V = whole(0);
        let mut outflow: V = whole(0);
        let mut j: usize = k + 1;
        while j < k + period + 1
            invariant
                k + 1 <= j <= k + period + 1,
                k < count,
                count == n - period,
                n == candles@.len(),
                0 < period < n,
                prices@.len() == n,
                forall|m: int| 0 <= m < n ==> prices@[m] == typical_price(candles@[m]),
                inflow == positive_flow(candles@, k + 1, j as int),
                outflow == negative_flow(candles@, k + 1, j as int),
            decreases k + period + 1 - j,
        {
            let flow = prices[j].times(candles[j].volume);
            if prices[j - 1].below(prices[j]) {
                inflow = inflow.plus(flow);
            } else if prices[j].below(prices[j - 1]) {
                outflow = outflow.plus(flow);
            }
            j += 1;
        }
        let value = if negligible(outflow) {
            whole(100)
        } else {
            whole::<V>(100).minus(whole::<V>(100).over(whole::<V>(1).plus(inflow.over(outflow))))
        };
        data.push(MfiPoint { time: candles[k + period].time, value });
        k += 1;
    }
    assert(data@ =~= mfi_spec(candles@, period));
    MfiResult { period, data }
}

} // verus!
