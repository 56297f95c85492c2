use crate::models::candle::Candle;
use crate::models::indicator::{AutoFibLevel, AutoFibResult};
use crate::scalar::{negligible, whole, Scalar};
use crate::series::times_of;
use crate::ta_engine::helpers::{
    enough_for_swings, has_swings, is_swing_high, is_swing_low, swing_high, swing_low,
};
use vstd::prelude::*;

verus! {

/// A retracement as contracts speak of it: the levels as a sequence.
pub struct AutoFibView<V> {
    pub high_time: i64,
    pub high_price: V,
    pub low_time: i64,
    pub low_price: V,
    pub is_uptrend: bool,
    pub levels: Seq<AutoFibLevel<V>>,
}

impl<V> View for AutoFibResult<V> {
    type V = AutoFibView<V>;

    open spec fn view(&self) -> AutoFibView<V> {
        AutoFibView {
            high_time: self.high_time,
            high_price: self.high_price,
            low_time: self.low_time,
            low_price: self.low_price,
            is_uptrend: self.is_uptrend,
            levels: self.levels@,
        }
    }
}

/// The retracement of a series without a usable swing: no levels, and
/// zero for every time and price.
pub open spec fn no_retracement<V: Scalar>() -> AutoFibView<V> {
    AutoFibView {
        high_time: 0,
        high_price: whole::<V>(0),
        low_time: 0,
        low_price: whole::<V>(0),
        is_uptrend: true,
        levels: Seq::empty(),
    }
}

/// The first candle that the scan for swings looks at: it covers the
/// last `lookback` candles, but no candle with fewer than `reach` candles
/// before it.
pub open spec fn scan_start(n: nat, lookback: usize, reach: usize) -> int {
    let from = if n > lookback {
        n - lookback
    } else {
        0
    };
    if from < reach {
        reach as int
    } else {
        from
    }
}

/// The swing high with the highest high among the candles `from..n`: of
/// several as high, the last.
pub open spec fn highest_swing<V: Scalar>(candles: Seq<Candle<V>>, reach: usize, from: int, n: int) -> Option<
    usize,
>
    decreases n - from,
{
    if n <= from {
        None
    } else {
        let before = highest_swing(candles, reach, from, n - 1);
        if is_swing_high(candles, n - 1, reach as int) {
            match before {
                Some(best) => if candles[n - 1].high.below(candles[best as int].high) {
                    before
                } else {
                    Some((n - 1) as usize)
                },
                None => Some((n - 1) as usize),
            }
        } else {
            before
        }
    }
}

/// The swing low with the lowest low among the candles `from..n`: of
/// several as low, the first.
pub open spec fn lowest_swing<V: Scalar>(candles: Seq<Candle<V>>, reach: usize, from: int, n: int) -> Option<
    usize,
>
    decreases n - from,
{
    if n <= from {
        None
    } else {
        let before = lowest_swing(candles, reach, from, n - 1);
        if is_swing_low(candles, n - 1, reach as int) {
            match before {
                Some(best) => if candles[n - 1].low.below(candles[best as int].low) {
                    Some((n - 1) as usize)
                } else {
                    before
                },
                None => Some((n - 1) as usize),
            }
        } else {
            before
        }
    }
}

/// The seven Fibonacci ratios, from zero to one.
pub open spec fn fib_ratios<V: Scalar>() -> Seq<V> {
    seq![
        whole::<V>(0),
        V::from_ratio(236, 1000),
        V::from_ratio(382, 1000),
        V::from_ratio(5, 10),
        V::from_ratio(618, 1000),
        V::from_ratio(786, 1000),
        whole::<V>(1),
    ]
}

/// The level of a ratio: that share of the range below the high in an
/// uptrend, above the low in a downtrend.
pub open spec fn level_at<V: Scalar>(ratio: V, high: V, low: V, is_uptrend: bool) -> AutoFibLevel<V> {
    AutoFibLevel {
        ratio,
        price: if is_uptrend {
            high.minus(ratio.times(high.minus(low)))
        } else {
            low.plus(ratio.times(high.minus(low)))
        },
    }
}

/// The retracement on the highest swing high and the lowest swing low of
/// the scanned candles; the trend is up where the low comes before the
/// high. There is none where the candles are too few for a swing, where
/// the scan finds no swing high or no swing low, or where the two are
/// next to equal.
pub open spec fn auto_fib_spec<V: Scalar>(
    candles: Seq<Candle<V>>,
    lookback: usize,
    swing_length: usize,
) -> AutoFibView<V> {
    if !has_swings(candles.len(), swing_length) || lookback == 0 {
        no_retracement()
    } else {
        let from = scan_start(candles.len(), lookback, swing_length);
        let to = candles.len() - swing_length;
        match (
            highest_swing(candles, swing_length, from, to),
            lowest_swing(candles, swing_length, from, to),
        ) {
            (Some(top), Some(bottom)) => {
                let high = candles[top as int].high;
                let low = candles[bottom as int].low;
                if negligible(high.minus(low)) {
                    no_retracement()
                } else {
                    AutoFibView {
                        high_time: candles[top as int].time,
                        high_price: high,
                        low_time: candles[bottom as int].time,
                        low_price: low,
                        is_uptrend: bottom < top,
                        levels: Seq::new(
                            7,
                            |k: int| level_at(fib_ratios::<V>()[k], high, low, bottom < top),
                        ),
                    }
                }
            },
            _ => no_retracement(),
        }
    }
}

fn nothing<V: Scalar>() -> (r: AutoFibResult<V>)
    ensures
        r@ == no_retracement::<V>(),
{
    AutoFibResult {
        high_time: 0,
        high_price: whole(0),
        low_time: 0,
        low_price: whole(0),
        is_uptrend: true,
        levels: Vec::new(),
    }
}

fn ratios<V: Scalar>() -> (r: Vec<V>)
    ensures
        r@ == fib_ratios::<V>(),
{
    let mut r: Vec<V> = Vec::with_capacity(7);
    r.push(whole(0));
    r.push(V::from_ratio(236, 1000));
    r.push(V::from_ratio(382, 1000));
    r.push(V::from_ratio(5, 10));
    r.push(V::from_ratio(618, 1000));
    r.push(V::from_ratio(786, 1000));
    r.push(whole(1));
    assert(r@ =~= fib_ratios::<V>());
    r
}

/// The Fibonacci retracement on the widest swings of the last `lookback`
/// candles.
pub fn calculate<V: Scalar>(candles: &[Candle<V>], lookback: usize, swing_length: usize) -> (r:
    AutoFibResult<V>)
    ensures
        r@ == auto_fib_spec(candles@, lookback, swing_length),
        r.levels@.len() == 0 || r.levels@.len() == 7,
        r.levels@.len() > 0 ==> times_of(candles@).contains(r.high_time) && times_of(
            candles@,
        ).contains(r.low_time),
{
    let n = candles.len();
    if !enough_for_swings(n, swing_length) || lookback == 0 {
        return nothing();
    }
    let from = if n > lookback {
        n - lookback
    } else {
        0
    };
    let start = if from < swing_length {
        swing_length
    } else {
        from
    };
    let end = n - swing_length;
    if end <= start {
        return nothing();
    }
    let mut top: Option<usize> = None;
    let mut bottom: Option<usize> = None;
    let mut i: usize = start;
    while i < end
        invariant
            swing_length <= start <= i <= end,
            end == n - swing_length,
            n == candles@.len(),
            has_swings(n as nat, swing_length),
            top matches Some(best) ==> best < n,
            bottom matches Some(best) ==> best < n,
            top == highest_swing(candles@, swing_length, start as int, i as int),
            bottom == lowest_swing(candles@, swing_length, start as int, i as int),
        decreases end - i,
    {
        if swing_high(candles, i, swing_length) {
            top = match top {
                Some(best) => if candles[i].high.below(candles[best].high) {
                    Some(best)
                } else {
                    Some(i)
                },
                None => Some(i),
            };
        }
        if swing_low(candles, i, swing_length) {
            bottom = match bottom {
                Some(best) => if candles[i].low.below(candles[best].low) {
                    Some(i)
                } else {
                    Some(best)
                },
                None => Some(i),
            };
        }
        i += 1;
    }
    let (top, bottom) = match (top, bottom) {
        (Some(top), Some(bottom)) => (top, bottom),
        _ => {
            return nothing();
        },
    };
    let high = candles[top].high;
    let low = candles[bottom].low;
    let range = high.minus(low);
    if negligible(range) {
        return nothing();
    }
    let is_uptrend = bottom < top;
    let shares = ratios::<V>();
    let mut levels: Vec<AutoFibLevel<V>> = Vec::with_capacity(7);
    let mut k: usize = 0;
    while k < shares.len()
        invariant
            k <= shares@.len(),
            shares@ == fib_ratios::<V>(),
            range == high.minus(low),
            levels@.len() == k,
            forall|j: int| 0 <= j < k ==> levels@[j] == level_at(shares@[j], high, low, is_uptrend),
        decreases shares@.len() - k,
    {
        let ratio = shares[k];
        let price = if is_uptrend {
            high.minus(ratio.times(range))
        } else {
            low.plus(ratio.times(range))
        };
        levels.push(AutoFibLevel { ratio, price });
        k += 1;
    }
    let result = AutoFibResult {
        high_time: candles[top].time,
        high_price: high,
        low_time: candles[bottom].time,
        low_price: low,
        is_uptrend,
        levels,
    };
    assert(result@.levels =~= auto_fib_spec(candles@, lookback, swing_length).levels);
    assert(times_of(candles@)[top as int] == result.high_time);
    assert(times_of(candles@)[bottom as int] == result.low_time);
    result
}

} // verus!
