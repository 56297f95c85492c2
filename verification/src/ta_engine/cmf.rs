use crate::models::candle::Candle;
use crate::models::indicator::{CmfPoint, CmfResult};
use crate::scalar::{negligible, whole, Scalar};
use crate::series::stands_on;
use crate::ta_engine::helpers::window_count;
use vstd::prelude::*;

verus! {

/// The money flow multiplier of a candle: where its close lies in its
/// range, from minus one at the low to one at the high; zero where the
/// range is too small to divide by.
pub open spec fn flow_multiplier<V: Scalar>(c: Candle<V>) -> V {
    if negligible(c.high.minus(c.low)) {
        whole::<V>(0)
    } else {
        c.close.minus(c.low).minus(c.high.minus(c.close)).over(c.high.minus(c.low))
    }
}

/// The multipliers of `candles[start..end]`, each times its volume, added
/// up from the left.
pub open spec fn flow_volume<V: Scalar>(candles: Seq<Candle<V>>, start: int, end: int) -> V
    decreases end - start,
{
    if end <= start {
        whole::<V>(0)
    } else {
        flow_volume(candles, start, end - 1).plus(
            flow_multiplier(candles[end - 1]).times(candles[end - 1].volume),
        )
    }
}

/// The volumes of `candles[start..end]`, added up from the left.
pub open spec fn total_volume<V: Scalar>(candles: Seq<Candle<V>>, start: int, end: int) -> V
    decreases end - start,
{
    if end <= start {
        whole::<V>(0)
    } else {
        total_volume(candles, start, end - 1).plus(candles[end - 1].volume)
    }
}

/// The `k`-th point of the money flow: the flow volume of the window over
/// its volume, or zero where next to nothing was traded.
pub open spec fn cmf_at<V: Scalar>(candles: Seq<Candle<V>>, period: usize, k: int) -> CmfPoint<V> {
    CmfPoint {
        time: candles[k + period - 1].time,
        value: if negligible(total_volume(candles, k, k + period)) {
            whole::<V>(0)
        } else {
            flow_volume(candles, k, k + period).over(total_volume(candles, k, k + period))
        },
    }
}

/// The Chaikin money flow of a series of candles.
pub open spec fn cmf_spec<V: Scalar>(candles: Seq<Candle<V>>, period: usize) -> Seq<CmfPoint<V>> {
    Seq::new(window_count(candles.len(), period), |k: int| cmf_at(candles, period, k))
}

fn multiplier_of<V: Scalar>(c: &Candle<V>) -> (r: V)
    ensures
        r == flow_multiplier(*c),
{
    let range = c.high.minus(c.low);
    if negligible(range) {
        whole(0)
    } else {
        c.close.minus(c.low).minus(c.high.minus(c.close)).over(range)
    }
}

/// The Chaikin money flow of a series of candles.
pub fn calculate<V: Scalar>(candles: &[Candle<V>], period: usize) -> (r: CmfResult<V>)
    ensures
        r.period == period,
        r.data@.len() == window_count(candles@.len(), period),
        stands_on(r.data@, candles@, period - 1),
        r.data@ == cmf_spec(candles@, period),
{
    let mut data: Vec<CmfPoint<V>> = Vec::new();
    let n = candles.len();
    if n < period || period == 0 {
        assert(data@ =~= cmf_spec(candles@, period));
        return CmfResult { period, data };
    }
    let mut multipliers: Vec<V> = Vec::with_capacity(n);
    let mut i: usize = 0;
    while i < n
        invariant
            i <= n,
            n == candles@.len(),
            multipliers@.len() == i,
            forall|j: int| 0 <= j < i ==> multipliers@[j] == flow_multiplier(candles@[j]),
        decreases n - i,
    {
        multipliers.push(multiplier_of(&candles[i]));
        i += 1;
    }
    let count = n - period + 1;
    let mut k: usize = 0;
    while k < count
        invariant
            k <= count,
            count == n - period + 1,
            n == candles@.len(),
            0 < period <= n,
            multipliers@.len() == n,
            forall|j: int| 0 <= j < n ==> multipliers@[j] == flow_multiplier(candles@[j]),
            data@.len() == k,
            forall|j: int| 0 <= j < k ==> data@[j] == cmf_at(candles@, period, j),
        decreases count - k,
    {
        let mut flow: V = whole(0);
        let mut volume: V = whole(0);
        let mut j: usize = k;
        while j < k + period
            invariant
                k <= j <= k + period,
                k < count,
                count == n - period + 1,
                n == candles@.len(),
                0 < period <= n,
                multipliers@.len() == n,
                forall|m: int| 0 <= m < n ==> multipliers@[m] == flow_multiplier(candles@[m]),
                flow == flow_volume(candles@, k as int, j as int),
                volume == total_volume(candles@, k as int, j as int),
            decreases k + period - j,
        {
            flow = flow.plus(multipliers[j].times(candles[j].volume));
            volume = volume.plus(candles[j].volume);
            j += 1;
        }
        let value = if negligible(volume) {
            whole(0)
        } else {
            flow.over(volume)
        };
        data.push(CmfPoint { time: candles[k + period - 1].time, value });
        k += 1;
    }
    assert(data@ =~= cmf_spec(candles@, period));
    CmfResult { period, data }
}

} // verus!
