use crate::models::candle::Candle;
use crate::models::indicator::{ParabolicSarPoint, ParabolicSarResult};
use crate::scalar::Scalar;
use crate::series::stands_on;
use vstd::prelude::*;

verus! {

/// Where the stop-and-reverse stands after a candle: the trend, the stop,
/// the extreme point of the trend so far, and the acceleration factor.
pub struct SarState<V> {
    pub uptrend: bool,
    pub sar: V,
    pub extreme: V,
    pub factor: V,
}

/// The state at the first of two or more candles: the trend is up where
/// the second close is not below the first; the stop starts at the far
/// side of the first candle, the extreme point at the near side of the
/// first two.
pub open spec fn sar_start<V: Scalar>(candles: Seq<Candle<V>>, step: V) -> SarState<V> {
    let uptrend = candles[0].close.at_most(candles[1].close);
    SarState {
        uptrend,
        sar: if uptrend {
            candles[0].low
        } else {
            candles[0].high
        },
        extreme: if uptrend {
            candles[0].high.larger(candles[1].high)
        } else {
            candles[0].low.smaller(candles[1].low)
        },
        factor: step,
    }
}

/// The stop moved towards the extreme point, then held outside the range
/// of the one or two candles before candle `i` on the trend's side.
pub open spec fn advanced_stop<V: Scalar>(before: SarState<V>, candles: Seq<Candle<V>>, i: int) -> V {
    let moved = before.sar.plus(before.factor.times(before.extreme.minus(before.sar)));
    if before.uptrend {
        let held = moved.smaller(candles[i - 1].low);
        if i > 1 {
            held.smaller(candles[i - 2].low)
        } else {
            held
        }
    } else {
        let held = moved.larger(candles[i - 1].high);
        if i > 1 {
            held.larger(candles[i - 2].high)
        } else {
            held
        }
    }
}

/// The state that candle `i` leaves behind. Where the candle breaks
/// through the stop the trend turns: the stop jumps to the extreme point,
/// the candle's far side becomes the new extreme, and the factor starts
/// over. Where it sets a new extreme the factor grows by a step, up to
/// `max_step`.
pub open spec fn sar_step<V: Scalar>(
    before: SarState<V>,
    candles: Seq<Candle<V>>,
    i: int,
    step: V,
    max_step: V,
) -> SarState<V> {
    let stop = advanced_stop(before, candles, i);
    let c = candles[i];
    if before.uptrend {
        if c.low.below(stop) {
            SarState { uptrend: false, sar: before.extreme, extreme: c.low, factor: step }
        } else if before.extreme.below(c.high) {
            SarState {
                uptrend: true,
                sar: stop,
                extreme: c.high,
                factor: before.factor.plus(step).smaller(max_step),
            }
        } else {
            SarState { uptrend: true, sar: stop, extreme: before.extreme, factor: before.factor }
        }
    } else {
        if stop.below(c.high) {
            SarState { uptrend: true, sar: before.extreme, extreme: c.high, factor: step }
        } else if c.low.below(before.extreme) {
            SarState {
                uptrend: false,
                sar: stop,
                extreme: c.low,
                factor: before.factor.plus(step).smaller(max_step),
            }
        } else {
            SarState { uptrend: false, sar: stop, extreme: before.extreme, factor: before.factor }
        }
    }
}

/// The state after candle `i` of two or more candles.
pub open spec fn sar_state<V: Scalar>(candles: Seq<Candle<V>>, step: V, max_step: V, i: int) -> SarState<
    V,
>
    decreases i,
{
    if i <= 0 {
        sar_start(candles, step)
    } else {
        sar_step(sar_state(candles, step, max_step, i - 1), candles, i, step, max_step)
    }
}

/// The stop at candle `i`; of a single candle it is the close.
pub open spec fn sar_value<V: Scalar>(candles: Seq<Candle<V>>, step: V, max_step: V, i: int) -> V {
    if candles.len() == 1 {
        candles[0].close
    } else {
        sar_state(candles, step, max_step, i).sar
    }
}

/// The parabolic stop-and-reverse of a series of candles.
pub open spec fn parabolic_sar_spec<V: Scalar>(candles: Seq<Candle<V>>, step: V, max_step: V) -> Seq<
    ParabolicSarPoint<V>,
> {
    Seq::new(
        candles.len(),
        |i: int|
            ParabolicSarPoint { time: candles[i].time, value: sar_value(candles, step, max_step, i) },
    )
}

/// The parabolic stop-and-reverse of a series of candles, one point for
/// each candle.
pub fn calculate<V: Scalar>(candles: &[Candle<V>], step: V, max_step: V) -> (r: ParabolicSarResult<
    V,
>)
    ensures
        r.step == step,
        r.max_step == max_step,
        r.data@.len() == candles@.len(),
        stands_on(r.data@, candles@, 0),
        r.data@ == parabolic_sar_spec(candles@, step, max_step),
{
    let mut data: Vec<ParabolicSarPoint<V>> = Vec::new();
    let n = candles.len();
    if n == 0 {
        assert(data@ =~= parabolic_sar_spec(candles@, step, max_step));
        return ParabolicSarResult { step, max_step, data };
    }
    if n == 1 {
        data.push(ParabolicSarPoint { time: candles[0].time, value: candles[0].close });
        assert(data@ =~= parabolic_sar_spec(candles@, step, max_step));
        return ParabolicSarResult { step, max_step, data };
    }
    let mut uptrend = candles[0].close.at_most(candles[1].close);
    let mut sar = if uptrend {
        candles[0].low
    } else {
        candles[0].high
    };
    let mut extreme = if uptrend {
        candles[0].high.larger(candles[1].high)
    } else {
        candles[0].low.smaller(candles[1].low)
    };
    let mut factor = step;
    data.push(ParabolicSarPoint { time: candles[0].time, value: sar });
    let mut i: usize = 1;
    while i < n
        invariant
            1 <= i <= n,
            2 <= n,
            n == candles@.len(),
            (SarState { uptrend, sar, extreme, factor }) == sar_state(
                candles@,
                step,
                max_step,
                i - 1,
            ),
            data@.len() == i,
            forall|k: int|
                0 <= k < i ==> data@[k] == (ParabolicSarPoint {
                    time: candles@[k].time,
                    value: sar_state(candles@, step, max_step, k).sar,
                }),
        decreases n - i,
    {
        let ghost before = SarState { uptrend, sar, extreme, factor };
        let c = candles[i];
        sar = sar.plus(factor.times(extreme.minus(sar)));
        if uptrend {
            sar = sar.smaller(candles[i - 1].low);
            if i > 1 {
                sar = sar.smaller(candles[i - 2].low);
            }
            if c.low.below(sar) {
                uptrend = false;
                sar = extreme;
                extreme = c.low;
                factor = step;
            } else if extreme.below(c.high) {
                extreme = c.high;
                factor = factor.plus(step).smaller(max_step);
            }
        } else {
            sar = sar.larger(candles[i - 1].high);
            if i > 1 {
                sar = sar.larger(candles[i - 2].high);
            }
            if sar.below(c.high) {
                uptrend = true;
                sar = extreme;
                extreme = c.high;
                factor = step;
            } else if c.low.below(extreme) {
                extreme = c.low;
                factor = factor.plus(step).smaller(max_step);
            }
        }
        assert((SarState { uptrend, sar, extreme, factor }) == sar_step(
            before,
            candles@,
            i as int,
            step,
            max_step,
        ));
        data.push(ParabolicSarPoint { time: c.time, value: sar });
        i += 1;
    }
    assert(data@ =~= parabolic_sar_spec(candles@, step, max_step));
    ParabolicSarResult { step, max_step, data }
}

} // verus!
