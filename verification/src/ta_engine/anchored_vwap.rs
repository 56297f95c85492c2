use crate::models::candle::Candle;
use crate::models::indicator::VwapResult;
use crate::scalar::Scalar;
use crate::series::stands_on;
use crate::ta_engine::vwap::{calculate_from, vwap_from};
use vstd::prelude::*;

verus! {

/// The index of the first candle at or after `anchor_time`, or the number
/// of candles where there is none.
pub open spec fn anchor_index<V>(candles: Seq<Candle<V>>, anchor_time: i64, from: int) -> int
    decreases candles.len() - from,
{
    if 0 <= from < candles.len() && candles[from].time < anchor_time {
        anchor_index(candles, anchor_time, from + 1)
    } else {
        from
    }
}

/// The volume-weighted average price with its sums running from the first
/// candle at or after `anchor_time`; it has no points before that candle.
pub fn calculate<V: Scalar>(candles: &[Candle<V>], anchor_time: i64) -> (r: VwapResult<V>)
    ensures
        r.data@.len() == candles@.len() - anchor_index(candles@, anchor_time, 0),
        stands_on(r.data@, candles@, anchor_index(candles@, anchor_time, 0)),
        r.data@ == vwap_from(candles@, anchor_index(candles@, anchor_time, 0)),
{
    let n = candles.len();
    let mut start: usize = 0;
    while start < n && candles[start].time < anchor_time
        invariant
            start <= n,
            n == candles@.len(),
            anchor_index(candles@, anchor_time, 0) == anchor_index(
                candles@,
                anchor_time,
                start as int,
            ),
        decreases n - start,
    {
        start += 1;
    }
    VwapResult { data: calculate_from(candles, start) }
}

} // verus!
