use crate::models::candle::Candle;
use crate::scalar::{whole, Scalar};
use crate::series::{
    highs, highs_of, larger_range, largest_of, lows, lows_of, smaller_range, smallest_of, sum_of,
    sum_range,
};
use vstd::prelude::*;

verus! {

/// How many windows of `period` values fit into `n` values: the length of
/// every series with a warm-up of `period - 1`.
pub open spec fn window_count(n: nat, period: usize) -> nat {
    if n < period || period == 0 {
        0
    } else {
        (n - period + 1) as nat
    }
}

/// The rolling highest high: the `k`-th value is the largest high of the
/// `period` candles from the `k`-th on.
pub open spec fn highest_high_spec<V: Scalar>(candles: Seq<Candle<V>>, period: usize) -> Seq<V> {
    Seq::new(
        window_count(candles.len(), period),
        |k: int| larger_range(highs_of(candles), V::neg_infinity(), k, k + period),
    )
}

/// The rolling lowest low: the `k`-th value is the smallest low of the
/// `period` candles from the `k`-th on.
pub open spec fn lowest_low_spec<V: Scalar>(candles: Seq<Candle<V>>, period: usize) -> Seq<V> {
    Seq::new(
        window_count(candles.len(), period),
        |k: int| smaller_range(lows_of(candles), V::infinity(), k, k + period),
    )
}

/// Wilder's average of a series of moves, `k` steps after its start: the
/// mean of the first `period` moves, then smoothed move by move, each new
/// move weighing one part in `period`.
pub open spec fn wilder_average<V: Scalar>(moves: Seq<V>, period: usize, k: int) -> V
    decreases k,
{
    if k <= 0 {
        sum_range(moves, 0, period as int).over(V::from_count(period))
    } else {
        wilder_average(moves, period, k - 1).times(V::from_count(period).minus(whole::<V>(1))).plus(
            moves[k + period - 1],
        ).over(V::from_count(period))
    }
}

/// The true range of candle `i`: its high less its low, widened to reach
/// the close before it. The first candle has no close before it.
pub open spec fn true_range<V: Scalar>(candles: Seq<Candle<V>>, i: int) -> V {
    let c = candles[i];
    if i <= 0 {
        c.high.minus(c.low)
    } else {
        let before = candles[i - 1].close;
        c.high.minus(c.low).larger(c.high.minus(before).magnitude()).larger(
            c.low.minus(before).magnitude(),
        )
    }
}

/// The true ranges of a series of candles.
pub open spec fn true_ranges_of<V: Scalar>(candles: Seq<Candle<V>>) -> Seq<V> {
    Seq::new(candles.len(), |i: int| true_range(candles, i))
}

/// The true ranges of a series of candles.
pub fn true_ranges<V: Scalar>(candles: &[Candle<V>]) -> (r: Vec<V>)
    ensures
        r@ == true_ranges_of(candles@),
{
    let n = candles.len();
    let mut ranges: Vec<V> = Vec::with_capacity(n);
    let mut i: usize = 0;
    while i < n
        invariant
            i <= n,
            n == candles@.len(),
            ranges@.len() == i,
            forall|j: int| 0 <= j < i ==> ranges@[j] == true_range(candles@, j),
        decreases n - i,
    {
        let c = candles[i];
        if i == 0 {
            ranges.push(c.high.minus(c.low));
        } else {
            let before = candles[i - 1].close;
            ranges.push(
                c.high.minus(c.low).larger(c.high.minus(before).magnitude()).larger(
                    c.low.minus(before).magnitude(),
                ),
            );
        }
        i += 1;
    }
    assert(ranges@ =~= true_ranges_of(candles@));
    ranges
}

/// Wilder's average of a series of values, window by window.
pub open spec fn wilder_seq<V: Scalar>(values: Seq<V>, period: usize) -> Seq<V> {
    Seq::new(window_count(values.len(), period), |k: int| wilder_average(values, period, k))
}

/// Wilder's average of a series of values, window by window.
pub fn wilder<V: Scalar>(values: &[V], period: usize) -> (r: Vec<V>)
    ensures
        r@ == wilder_seq(values@, period),
{
    let mut result: Vec<V> = Vec::new();
    let n = values.len();
    if n < period || period == 0 {
        assert(result@ =~= wilder_seq(values@, period));
        return result;
    }
    let count = n - period + 1;
    let weight: V = V::from_count(period).minus(whole(1));
    let mut average = sum_of(values, 0, period).over(V::from_count(period));
    result.push(average);
    let mut k: usize = 1;
    while k < count
        invariant
            1 <= k <= count,
            count == n - period + 1,
            n == values@.len(),
            period > 0,
            weight == V::from_count(period).minus(whole::<V>(1)),
            average == wilder_average(values@, period, k - 1),
            result@.len() == k,
            forall|j: int| 0 <= j < k ==> result@[j] == wilder_average(values@, period, j),
        decreases count - k,
    {
        average = average.times(weight).plus(values[k + period - 1]).over(V::from_count(period));
        result.push(average);
        k += 1;
    }
    assert(result@ =~= wilder_seq(values@, period));
    result
}

/// Whether, `j` candles to either side of candle `i`, no high is above
/// the high of candle `i`.
pub open spec fn not_topped_at<V: Scalar>(candles: Seq<Candle<V>>, i: int, j: int) -> bool {
    !candles[i].high.below(candles[i - j].high) && !candles[i].high.below(candles[i + j].high)
}

/// Whether, `j` candles to either side of candle `i`, no low is below the
/// low of candle `i`.
pub open spec fn not_undercut_at<V: Scalar>(candles: Seq<Candle<V>>, i: int, j: int) -> bool {
    !candles[i - j].low.below(candles[i].low) && !candles[i + j].low.below(candles[i].low)
}

/// Whether candle `i` is a swing high: none of the `reach` candles on
/// either side has a high above its high.
pub open spec fn is_swing_high<V: Scalar>(candles: Seq<Candle<V>>, i: int, reach: int) -> bool {
    forall|j: int| 1 <= j <= reach ==> #[trigger] not_topped_at(candles, i, j)
}

/// Whether candle `i` is a swing low: none of the `reach` candles on
/// either side has a low below its low.
pub open spec fn is_swing_low<V: Scalar>(candles: Seq<Candle<V>>, i: int, reach: int) -> bool {
    forall|j: int| 1 <= j <= reach ==> #[trigger] not_undercut_at(candles, i, j)
}

/// Whether candle `i` is a swing high.
pub fn swing_high<V: Scalar>(candles: &[Candle<V>], i: usize, reach: usize) -> (r: bool)
    requires
        reach <= i,
        i + reach < candles@.len(),
    ensures
        r == is_swing_high(candles@, i as int, reach as int),
{
    let n = candles.len();
    let mut j: usize = 1;
    while j <= reach
        invariant
            1 <= j <= reach + 1,
            reach <= i,
            i + reach < n,
            n == candles@.len(),
            forall|m: int| 1 <= m < j ==> #[trigger] not_topped_at(candles@, i as int, m),
        decreases reach + 1 - j,
    {
        if candles[i].high.below(candles[i - j].high) || candles[i].high.below(
            candles[i + j].high,
        ) {
            assert(!not_topped_at(candles@, i as int, j as int));
            return false;
        }
        j += 1;
    }
    true
}

/// Whether candle `i` is a swing low.
pub fn swing_low<V: Scalar>(candles: &[Candle<V>], i: usize, reach: usize) -> (r: bool)
    requires
        reach <= i,
        i + reach < candles@.len(),
    ensures
        r == is_swing_low(candles@, i as int, reach as int),
{
    let n = candles.len();
    let mut j: usize = 1;
    while j <= reach
        invariant
            1 <= j <= reach + 1,
            reach <= i,
            i + reach < n,
            n == candles@.len(),
            forall|m: int| 1 <= m < j ==> #[trigger] not_undercut_at(candles@, i as int, m),
        decreases reach + 1 - j,
    {
        if candles[i - j].low.below(candles[i].low) || candles[i + j].low.below(candles[i].low) {
            assert(!not_undercut_at(candles@, i as int, j as int));
            return false;
        }
        j += 1;
    }
    true
}

/// Whether `n` candles are enough for a swing with `reach` candles on
/// either side.
pub open spec fn has_swings(n: nat, reach: usize) -> bool {
    reach > 0 && n >= 2 * reach + 1
}

/// Whether `n` candles are enough for a swing with `reach` candles on
/// either side.
pub fn enough_for_swings(n: usize, reach: usize) -> (r: bool)
    ensures
        r == has_swings(n as nat, reach),
{
    reach > 0 && n > 0 && reach <= (n - 1) / 2
}

/// The rolling highest high over `period` candles.
pub fn highest_high<V: Scalar>(candles: &[Candle<V>], period: usize) -> (r: Vec<V>)
    ensures
        r@ == highest_high_spec(candles@, period),
{
    let mut result: Vec<V> = Vec::new();
    if candles.len() < period || period == 0 {
        assert(result@ =~= highest_high_spec(candles@, period));
        return result;
    }
    let values = highs(candles);
    let count = candles.len() - period + 1;
    let mut k: usize = 0;
    while k < count
        invariant
            k <= count,
            count == candles@.len() - period + 1,
            candles@.len() <= usize::MAX,
            period > 0,
            values@ == highs_of(candles@),
            result@.len() == k,
            forall|j: int| 0 <= j < k ==> result@[j] == highest_high_spec(candles@, period)[j],
        decreases count - k,
    {
        result.push(largest_of(values.as_slice(), V::neg_infinity(), k, k + period));
        k += 1;
    }
    assert(result@ =~= highest_high_spec(candles@, period));
    result
}

/// The rolling lowest low over `period` candles.
pub fn lowest_low<V: Scalar>(candles: &[Candle<V>], period: usize) -> (r: Vec<V>)
    ensures
        r@ == lowest_low_spec(candles@, period),
{
    let mut result: Vec<V> = Vec::new();
    if candles.len() < period || period == 0 {
        assert(result@ =~= lowest_low_spec(candles@, period));
        return result;
    }
    let values = lows(candles);
    let count = candles.len() - period + 1;
    let mut k: usize = 0;
    while k < count
        invariant
            k <= count,
            count == candles@.len() - period + 1,
            candles@.len() <= usize::MAX,
            period > 0,
            values@ == lows_of(candles@),
            result@.len() == k,
            forall|j: int| 0 <= j < k ==> result@[j] == lowest_low_spec(candles@, period)[j],
        decreases count - k,
    {
        result.push(smallest_of(values.as_slice(), V::infinity(), k, k + period));
        k += 1;
    }
    assert(result@ =~= lowest_low_spec(candles@, period));
    result
}

} // verus!
