use crate::models::candle::Candle;
use crate::models::indicator::{ObvPoint, ObvResult};
use crate::scalar::{whole, Scalar};
use crate::series::stands_on;
use vstd::prelude::*;

verus! {

/// The on-balance volume at candle `i`: zero at the first candle, then
/// the volume of each candle added where its close is above the close
/// before it, and taken off where it is below.
pub open spec fn obv_at<V: Scalar>(candles: Seq<Candle<V>>, i: int) -> V
    decreases i,
{
    if i <= 0 {
        whole::<V>(0)
    } else {
        let before = obv_at(candles, i - 1);
        if candles[i - 1].close.below(candles[i].close) {
            before.plus(candles[i].volume)
        } else if candles[i].close.below(candles[i - 1].close) {
            before.minus(candles[i].volume)
        } else {
            before
        }
    }
}

/// How many points the on-balance volume has: one for each candle, but
/// none for fewer than two candles.
pub open spec fn obv_count(n: nat) -> nat {
    if n < 2 {
        0
    } else {
        n
    }
}

/// The on-balance volume of a series of candles.
pub open spec fn obv_spec<V: Scalar>(candles: Seq<Candle<V>>) -> Seq<ObvPoint<V>> {
    Seq::new(
        obv_count(candles.len()),
        |i: int| ObvPoint { time: candles[i].time, value: obv_at(candles, i) },
    )
}

/// The on-balance volume of a series of candles.
pub fn calculate<V: Scalar>(candles: &[Candle<V>]) -> (r: ObvResult<V>)
    ensures
        r.data@.len() == obv_count(candles@.len()),
        stands_on(r.data@, candles@, 0),
        r.data@ == obv_spec(candles@),
{
    let mut data: Vec<ObvPoint<V>> = Vec::new();
    let n = candles.len();
    if n < 2 {
        assert(data@ =~= obv_spec(candles@));
        return ObvResult { data };
    }
    let mut balance: V = whole(0);
    data.push(ObvPoint { time: candles[0].time, value: balance });
    let mut i: usize = 1;
    while i < n
        invariant
            1 <= i <= n,
            n == candles@.len(),
            balance == obv_at(candles@, i - 1),
            data@.len() == i,
            forall|j: int|
                0 <= j < i ==> data@[j] == (ObvPoint {
                    time: candles@[j].time,
                    value: obv_at(candles@, j),
                }),
        decreases n - i,
    {
        if candles[i - 1].close.below(candles[i].close) {
            balance = balance.plus(candles[i].volume);
        } else if candles[i].close.below(candles[i - 1].close) {
            balance = balance.minus(candles[i].volume);
        }
        data.push(ObvPoint { time: candles[i].time, value: balance });
        i += 1;
    }
    assert(data@ =~= obv_spec(candles@));
    ObvResult { data }
}

} // verus!
