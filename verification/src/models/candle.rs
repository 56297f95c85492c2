use vstd::prelude::*;

verus! {

/// One bar of a price series: the prices and the volume traded in the
/// interval that starts at `time` (seconds since the Unix epoch).
#[derive(Debug, Clone, Copy)]
pub struct Candle<V> {
    pub time: i64,
    pub open: V,
    pub high: V,
    pub low: V,
    pub close: V,
    pub volume: V,
}

/// Whether the times grow strictly: what the engine's users owe of a
/// series of candles.
pub open spec fn ascending(times: Seq<i64>) -> bool {
    forall|i: int, j: int| 0 <= i < j < times.len() ==> times[i] < times[j]
}

} // verus!
