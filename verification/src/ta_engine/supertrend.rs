use crate::models::candle::Candle;
use crate::models::indicator::{SupertrendPoint, SupertrendResult};
use crate::scalar::{whole, Scalar};
use crate::series::stands_on;
use crate::ta_engine::helpers::{true_ranges, true_ranges_of, wilder, wilder_seq, window_count};
use vstd::prelude::*;

verus! {

/// Where the Supertrend stands after a candle: the two final bands, the
/// line's value, and its direction (`1` up, `-1` down).
pub struct TrendState<V> {
    pub upper: V,
    pub lower: V,
    pub value: V,
    pub direction: i8,
}

/// The average true range at each candle: none before the first window
/// has filled.
pub open spec fn atr_values_spec<V: Scalar>(candles: Seq<Candle<V>>, period: usize) -> Seq<
    Option<V>,
> {
    Seq::new(
        candles.len(),
        |i: int|
            if period > 0 && i + 1 >= period {
                Some(wilder_seq(true_ranges_of(candles), period)[i + 1 - period])
            } else {
                None
            },
    )
}

/// The basic upper band at candle `i`: the middle of the candle plus
/// `multiplier` average true ranges.
pub open spec fn basic_upper<V: Scalar>(c: Candle<V>, range: V, multiplier: V) -> V {
    c.high.plus(c.low).over(whole::<V>(2)).plus(multiplier.times(range))
}

/// The basic lower band at candle `i`: the middle of the candle less
/// `multiplier` average true ranges.
pub open spec fn basic_lower<V: Scalar>(c: Candle<V>, range: V, multiplier: V) -> V {
    c.high.plus(c.low).over(whole::<V>(2)).minus(multiplier.times(range))
}

/// The state that a candle leaves behind.
///
/// A final band follows its basic band only where that tightens it, or
/// where the close before broke through it; else it stays. The line
/// keeps to the band it was on while the close stays on the band's side,
/// and crosses to the other band where the close breaks through.
pub open spec fn trend_step<V: Scalar>(
    before: TrendState<V>,
    close_before: V,
    c: Candle<V>,
    range: V,
    multiplier: V,
) -> TrendState<V> {
    let upper = if basic_upper(c, range, multiplier).below(before.upper) || before.upper.below(
        close_before,
    ) {
        basic_upper(c, range, multiplier)
    } else {
        before.upper
    };
    let lower = if before.lower.below(basic_lower(c, range, multiplier)) || close_before.below(
        before.lower,
    ) {
        basic_lower(c, range, multiplier)
    } else {
        before.lower
    };
    if before.value.same(before.upper) {
        if c.close.at_most(upper) {
            TrendState { upper, lower, value: upper, direction: -1i8 }
        } else {
            TrendState { upper, lower, value: lower, direction: 1 }
        }
    } else if lower.at_most(c.close) {
        TrendState { upper, lower, value: lower, direction: 1 }
    } else {
        TrendState { upper, lower, value: upper, direction: -1i8 }
    }
}

/// The state after the `k`-th candle that has an average true range. The
/// line starts on the upper band, pointing down.
pub open spec fn trend_state<V: Scalar>(
    candles: Seq<Candle<V>>,
    period: usize,
    multiplier: V,
    k: int,
) -> TrendState<V>
    decreases k,
{
    let i = k + period - 1;
    let range = wilder_seq(true_ranges_of(candles), period)[k];
    if k <= 0 {
        TrendState {
            upper: basic_upper(candles[i], range, multiplier),
            lower: basic_lower(candles[i], range, multiplier),
            value: basic_upper(candles[i], range, multiplier),
            direction: -1i8,
        }
    } else {
        trend_step(
            trend_state(candles, period, multiplier, k - 1),
            candles[i - 1].close,
            candles[i],
            range,
            multiplier,
        )
    }
}

/// The Supertrend line of a series of candles.
pub open spec fn supertrend_spec<V: Scalar>(
    candles: Seq<Candle<V>>,
    period: usize,
    multiplier: V,
) -> Seq<SupertrendPoint<V>> {
    Seq::new(
        window_count(candles.len(), period),
        |k: int|
            SupertrendPoint {
                time: candles[k + period - 1].time,
                value: trend_state(candles, period, multiplier, k).value,
                direction: trend_state(candles, period, multiplier, k).direction,
            },
    )
}

/// The average true range at each candle.
pub fn atr_values<V: Scalar>(candles: &[Candle<V>], period: usize) -> (r: Vec<Option<V>>)
    ensures
        r@ == atr_values_spec(candles@, period),
{
    let n = candles.len();
    let ranges = true_ranges(candles);
    let averages = wilder(ranges.as_slice(), period);
    let mut result: Vec<Option<V>> = Vec::with_capacity(n);
    let mut i: usize = 0;
    while i < n
        invariant
            i <= n,
            n == candles@.len(),
            averages@ == wilder_seq(true_ranges_of(candles@), period),
            result@.len() == i,
            forall|j: int| 0 <= j < i ==> result@[j] == atr_values_spec(candles@, period)[j],
        decreases n - i,
    {
        if period > 0 && i + 1 >= period {
            result.push(Some(averages[i + 1 - period]));
        } else {
            result.push(None);
        }
        i += 1;
    }
    assert(result@ =~= atr_values_spec(candles@, period));
    result
}

/// The Supertrend line of a series of candles; the first point stands on
/// the first candle that has an average true range.
pub fn calculate<V: Scalar>(candles: &[Candle<V>], period: usize, multiplier: V) -> (r:
    SupertrendResult<V>)
    ensures
        r.period == period,
        r.multiplier == multiplier,
        r.data@.len() == window_count(candles@.len(), period),
        stands_on(r.data@, candles@, period - 1),
        r.data@ == supertrend_spec(candles@, period, multiplier),
{
    let mut data: Vec<SupertrendPoint<V>> = Vec::new();
    let n = candles.len();
    if n < period || period == 0 {
        assert(data@ =~= supertrend_spec(candles@, period, multiplier));
        return SupertrendResult { period, multiplier, data };
    }
    let ranges = atr_values(candles, period);
    let first = candles[period - 1];
    let first_range = match ranges[period - 1] {
        Some(range) => range,
        None => whole(0),
    };
    let middle = first.high.plus(first.low).over(whole(2));
    let mut upper = middle.plus(multiplier.times(first_range));
    let mut lower = middle.minus(multiplier.times(first_range));
    let mut value = upper;
    let mut direction: i8 = -1;
    data.push(SupertrendPoint { time: first.time, value, direction });
    let mut i: usize = period;
    while i < n
        invariant
            1 <= period <= i <= n,
            n == candles@.len(),
            ranges@ == atr_values_spec(candles@, period),
            (TrendState { upper, lower, value, direction }) == trend_state(
                candles@,
                period,
                multiplier,
                i - period,
            ),
            data@.len() == i - period + 1,
            forall|k: int|
                0 <= k < data@.len() ==> data@[k] == (SupertrendPoint {
                    time: candles@[k + period - 1].time,
                    value: trend_state(candles@, period, multiplier, k).value,
                    direction: trend_state(candles@, period, multiplier, k).direction,
                }),
        decreases n - i,
    {
        let c = candles[i];
        let range = match ranges[i] {
            Some(range) => range,
            None => whole(0),
        };
        let middle = c.high.plus(c.low).over(whole(2));
        let basic_up = middle.plus(multiplier.times(range));
        let basic_low = middle.minus(multiplier.times(range));
        let close_before = candles[i - 1].close;
        let ghost before = TrendState { upper, lower, value, direction };
        let next_upper = if basic_up.below(upper) || upper.below(close_before) {
            basic_up
        } else {
            upper
        };
        let next_lower = if lower.below(basic_low) || close_before.below(lower) {
            basic_low
        } else {
            lower
        };
        if value.same(upper) {
            if c.close.at_most(next_upper) {
                value = next_upper;
                direction = -1;
            } else {
                value = next_lower;
                direction = 1;
            }
        } else if next_lower.at_most(c.close) {
            value = next_lower;
            direction = 1;
        } else {
            value = next_upper;
            direction = -1;
        }
        upper = next_upper;
        lower = next_lower;
        assert((TrendState { upper, lower, value, direction }) == trend_step(
            before,
            close_before,
            c,
            range,
            multiplier,
        ));
        data.push(SupertrendPoint { time: c.time, value, direction });
        i += 1;
    }
    assert(data@ =~= supertrend_spec(candles@, period, multiplier));
    SupertrendResult { period, multiplier, data }
}

} // verus!
