use crate::models::candle::Candle;
use crate::models::indicator::{KeltnerPoint, KeltnerResult};
use crate::scalar::Scalar;
use crate::series::{closes, closes_of, stands_on};
use crate::ta_engine::ema;
use crate::ta_engine::ema::ema_seq;
use crate::ta_engine::helpers::{true_ranges, true_ranges_of, wilder, wilder_seq, window_count};
use vstd::prelude::*;

verus! {

/// The longer of the two periods: the channel starts where both the
/// middle line and the range have a value.
pub open spec fn keltner_period(ema_period: usize, atr_period: usize) -> usize {
    if ema_period < atr_period {
        atr_period
    } else {
        ema_period
    }
}

/// How many points the channel has: none where either period is zero.
pub open spec fn keltner_count(n: nat, ema_period: usize, atr_period: usize) -> nat {
    if ema_period == 0 || atr_period == 0 {
        0
    } else {
        window_count(n, keltner_period(ema_period, atr_period))
    }
}

/// The `k`-th point of the channel: the exponential average of the closes,
/// and `atr_multiplier` average true ranges above and below it.
pub open spec fn keltner_at<V: Scalar>(
    candles: Seq<Candle<V>>,
    ema_period: usize,
    atr_period: usize,
    atr_multiplier: V,
    k: int,
) -> KeltnerPoint<V> {
    let at = k + keltner_period(ema_period, atr_period) - 1;
    let middle = ema_seq(closes_of(candles), ema_period)[at - (ema_period - 1)];
    let range = wilder_seq(true_ranges_of(candles), atr_period)[at - (atr_period - 1)];
    KeltnerPoint {
        time: candles[at].time,
        upper: middle.plus(atr_multiplier.times(range)),
        middle,
        lower: middle.minus(atr_multiplier.times(range)),
    }
}

/// The Keltner channel of a series of candles.
pub open spec fn keltner_spec<V: Scalar>(
    candles: Seq<Candle<V>>,
    ema_period: usize,
    atr_period: usize,
    atr_multiplier: V,
) -> Seq<KeltnerPoint<V>> {
    Seq::new(
        keltner_count(candles.len(), ema_period, atr_period),
        |k: int| keltner_at(candles, ema_period, atr_period, atr_multiplier, k),
    )
}

/// The Keltner channel of a series of candles.
pub fn calculate<V: Scalar>(
    candles: &[Candle<V>],
    ema_period: usize,
    atr_period: usize,
    atr_multiplier: V,
) -> (r: KeltnerResult<V>)
    ensures
        r.ema_period == ema_period,
        r.atr_period == atr_period,
        r.atr_multiplier == atr_multiplier,
        r.data@.len() == keltner_count(candles@.len(), ema_period, atr_period),
        stands_on(r.data@, candles@, keltner_period(ema_period, atr_period) - 1),
        r.data@ == keltner_spec(candles@, ema_period, atr_period, atr_multiplier),
{
    let n = candles.len();
    let mut data: Vec<KeltnerPoint<V>> = Vec::new();
    let longer = if ema_period < atr_period {
        atr_period
    } else {
        ema_period
    };
    if ema_period == 0 || atr_period == 0 || n < longer {
        assert(data@ =~= keltner_spec(candles@, ema_period, atr_period, atr_multiplier));
        return KeltnerResult { ema_period, atr_period, atr_multiplier, data };
    }
    let values = closes(candles);
    let middles = ema::calculate_from_values(values.as_slice(), ema_period);
    let ranges = true_ranges(candles);
    let averages = wilder(ranges.as_slice(), atr_period);
    let mut at: usize = longer - 1;
    while at < n
        invariant
            longer - 1 <= at <= n,
            n == candles@.len(),
            longer == keltner_period(ema_period, atr_period),
            1 <= ema_period <= longer <= n,
            1 <= atr_period <= longer,
            values@ == closes_of(candles@),
            middles@ == ema_seq(values@, ema_period),
            averages@ == wilder_seq(true_ranges_of(candles@), atr_period),
            data@.len() == at - (longer - 1),
            forall|j: int|
                0 <= j < data@.len() ==> data@[j] == keltner_at(
                    candles@,
                    ema_period,
                    atr_period,
                    atr_multiplier,
                    j,
                ),
        decreases n - at,
    {
        let middle = middles[at - (ema_period - 1)];
        let range = averages[at - (atr_period - 1)];
        data.push(
            KeltnerPoint {
                time: candles[at].time,
                upper: middle.plus(atr_multiplier.times(range)),
                middle,
                lower: middle.minus(atr_multiplier.times(range)),
            },
        );
        at += 1;
    }
    assert(data@ =~= keltner_spec(candles@, ema_period, atr_period, atr_multiplier));
    KeltnerResult { ema_period, atr_period, atr_multiplier, data }
}

} // verus!
