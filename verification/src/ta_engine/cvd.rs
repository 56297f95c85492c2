use crate::models::candle::Candle;
use crate::models::indicator::{CvdPoint, CvdResult};
use crate::scalar::{whole, Scalar};
use crate::series::stands_on;
use vstd::prelude::*;

verus! {

/// The volume delta of a candle: its volume where it closed above its
/// open, its volume negated where it closed below, else zero.
pub open spec fn volume_delta<V: Scalar>(c: Candle<V>) -> V {
    if c.open.below(c.close) {
        c.volume
    } else if c.close.below(c.open) {
        c.volume.negated()
    } else {
        whole::<V>(0)
    }
}

/// The deltas of the first `n` candles, added up from the left.
pub open spec fn cumulative_delta<V: Scalar>(candles: Seq<Candle<V>>, n: int) -> V
    decreases n,
{
    if n <= 0 {
        whole::<V>(0)
    } else {
        cumulative_delta(candles, n - 1).plus(volume_delta(candles[n - 1]))
    }
}

/// The cumulative volume delta of a series of candles.
pub open spec fn cvd_spec<V: Scalar>(candles: Seq<Candle<V>>) -> Seq<CvdPoint<V>> {
    Seq::new(
        candles.len(),
        |i: int| CvdPoint { time: candles[i].time, value: cumulative_delta(candles, i + 1) },
    )
}

/// The cumulative volume delta of a series of candles, one point for each
/// candle.
pub fn calculate<V: Scalar>(candles: &[Candle<V>]) -> (r: CvdResult<V>)
    ensures
        r.data@.len() == candles@.len(),
        stands_on(r.data@, candles@, 0),
        r.data@ == cvd_spec(candles@),
{
    let n = candles.len();
    let mut data: Vec<CvdPoint<V>> = Vec::with_capacity(n);
    let mut cumulative: V = whole(0);
    let mut i: usize = 0;
    while i < n
        invariant
            i <= n,
            n == candles@.len(),
            cumulative == cumulative_delta(candles@, i as int),
            data@.len() == i,
            forall|j: int|
                0 <= j < i ==> data@[j] == (CvdPoint {
                    time: candles@[j].time,
                    value: cumulative_delta(candles@, j + 1),
                }),
        decreases n - i,
    {
        let c = candles[i];
        let delta = if c.open.below(c.close) {
            c.volume
        } else if c.close.below(c.open) {
            c.volume.negated()
        } else {
            whole(0)
        };
        cumulative = cumulative.plus(delta);
        data.push(CvdPoint { time: c.time, value: cumulative });
        i += 1;
    }
    assert(data@ =~= cvd_spec(candles@));
    CvdResult { data }
}

} // verus!
