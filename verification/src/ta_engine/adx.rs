use crate::models::candle::Candle;
use crate::models::indicator::{AdxPoint, AdxResult};
use crate::scalar::{whole, Scalar};
use crate::series::{stands_on, sum_of, sum_range};
use crate::ta_engine::helpers::{true_ranges, true_ranges_of, wilder, wilder_seq};
use vstd::prelude::*;

verus! {

/// The upward move at candle `i`: the rise of the high over the high
/// before, where it is above zero and above the fall of the low; else
/// zero. The first candle has none.
pub open spec fn plus_move<V: Scalar>(candles: Seq<Candle<V>>, i: int) -> V {
    if i <= 0 {
        whole::<V>(0)
    } else {
        let up = candles[i].high.minus(candles[i - 1].high);
        let down = candles[i - 1].low.minus(candles[i].low);
        if down.below(up) && whole::<V>(0).below(up) {
            up
        } else {
            whole::<V>(0)
        }
    }
}

/// The downward move at candle `i`: the fall of the low under the low
/// before, where it is above zero and above the rise of the high; else
/// zero. The first candle has none.
pub open spec fn minus_move<V: Scalar>(candles: Seq<Candle<V>>, i: int) -> V {
    if i <= 0 {
        whole::<V>(0)
    } else {
        let up = candles[i].high.minus(candles[i - 1].high);
        let down = candles[i - 1].low.minus(candles[i].low);
        if up.below(down) && whole::<V>(0).below(down) {
            down
        } else {
            whole::<V>(0)
        }
    }
}

/// The upward moves of a series of candles.
pub open spec fn plus_moves<V: Scalar>(candles: Seq<Candle<V>>) -> Seq<V> {
    Seq::new(candles.len(), |i: int| plus_move(candles, i))
}

/// The downward moves of a series of candles.
pub open spec fn minus_moves<V: Scalar>(candles: Seq<Candle<V>>) -> Seq<V> {
    Seq::new(candles.len(), |i: int| minus_move(candles, i))
}

/// Wilder's running sum of `values` at index `i`, from `period` on: the
/// sum of the values `1..=period` at first, then at each step a
/// `period`-th of the sum taken off and the new value put on.
pub open spec fn running_sum<V: Scalar>(values: Seq<V>, period: usize, i: int) -> V
    decreases i,
{
    if i <= period {
        sum_range(values, 1, period + 1)
    } else {
        let before = running_sum(values, period, i - 1);
        before.minus(before.over(V::from_count(period))).plus(values[i])
    }
}

/// A directional indicator: the smoothed move in hundredths of the
/// smoothed true range, or zero where that range is not above zero.
pub open spec fn directional<V: Scalar>(moved: V, range: V) -> V {
    if whole::<V>(0).below(range) {
        whole::<V>(100).times(moved).over(range)
    } else {
        whole::<V>(0)
    }
}

/// The directional index: the distance of the two indicators in
/// hundredths of their sum, or zero where the sum is not above zero.
pub open spec fn directional_index<V: Scalar>(plus: V, minus: V) -> V {
    if whole::<V>(0).below(plus.plus(minus)) {
        whole::<V>(100).times(plus.minus(minus).magnitude()).over(plus.plus(minus))
    } else {
        whole::<V>(0)
    }
}

/// The upward directional indicator at candle `i`, from `period` on.
pub open spec fn plus_di_at<V: Scalar>(candles: Seq<Candle<V>>, period: usize, i: int) -> V {
    directional(
        running_sum(plus_moves(candles), period, i),
        running_sum(true_ranges_of(candles), period, i),
    )
}

/// The downward directional indicator at candle `i`, from `period` on.
pub open spec fn minus_di_at<V: Scalar>(candles: Seq<Candle<V>>, period: usize, i: int) -> V {
    directional(
        running_sum(minus_moves(candles), period, i),
        running_sum(true_ranges_of(candles), period, i),
    )
}

/// The directional indices of the candles from `period` on.
pub open spec fn dx_seq<V: Scalar>(candles: Seq<Candle<V>>, period: usize) -> Seq<V> {
    Seq::new(
        (candles.len() - period) as nat,
        |m: int|
            directional_index(
                plus_di_at(candles, period, m + period),
                minus_di_at(candles, period, m + period),
            ),
    )
}

/// How many points the index has: none for a period of zero or for fewer
/// than `2 * period + 1` candles.
pub open spec fn adx_count(n: nat, period: usize) -> nat {
    if period == 0 || n < 2 * period + 1 {
        0
    } else {
        (n - 2 * period + 1) as nat
    }
}

/// The `k`-th point: Wilder's average of the directional indices, with
/// the two indicators of the candle it stands on.
pub open spec fn adx_at<V: Scalar>(candles: Seq<Candle<V>>, period: usize, k: int) -> AdxPoint<V> {
    AdxPoint {
        time: candles[k + 2 * period - 1].time,
        adx: wilder_seq(dx_seq(candles, period), period)[k],
        plus_di: plus_di_at(candles, period, k + 2 * period - 1),
        minus_di: minus_di_at(candles, period, k + 2 * period - 1),
    }
}

/// The average directional index of a series of candles.
pub open spec fn adx_spec<V: Scalar>(candles: Seq<Candle<V>>, period: usize) -> Seq<AdxPoint<V>> {
    Seq::new(adx_count(candles.len(), period), |k: int| adx_at(candles, period, k))
}

fn directional_of<V: Scalar>(moved: V, range: V) -> (r: V)
    ensures
        r == directional(moved, range),
{
    if whole::<V>(0).below(range) {
        whole::<V>(100).times(moved).over(range)
    } else {
        whole(0)
    }
}

fn index_of<V: Scalar>(plus: V, minus: V) -> (r: V)
    ensures
        r == directional_index(plus, minus),
{
    let sum = plus.plus(minus);
    if whole::<V>(0).below(sum) {
        whole::<V>(100).times(plus.minus(minus).magnitude()).over(sum)
    } else {
        whole(0)
    }
}

/// The average directional index of a series of candles, with the two
/// directional indicators; the first point stands on candle
/// `2 * period - 1`.
pub fn calculate<V: Scalar>(candles: &[Candle<V>], period: usize) -> (r: AdxResult<V>)
    ensures
        r.period == period,
        r.data@.len() == adx_count(candles@.len(), period),
        stands_on(r.data@, candles@, 2 * period - 1),
        r.data@ == adx_spec(candles@, period),
{
    let mut data: Vec<AdxPoint<V>> = Vec::new();
    let n = candles.len();
    if period == 0 || n == 0 || period > (n - 1) / 2 {
        assert(data@ =~= adx_spec(candles@, period));
        return AdxResult { period, data };
    }
    let mut ups: Vec<V> = Vec::with_capacity(n);
    let mut downs: Vec<V> = Vec::with_capacity(n);
    ups.push(whole(0));
    downs.push(whole(0));
    let mut i: usize = 1;
    while i < n
        invariant
            1 <= i <= n,
            n == candles@.len(),
            ups@.len() == i,
            downs@.len() == i,
            forall|j: int| 0 <= j < i ==> ups@[j] == plus_move(candles@, j),
            forall|j: int| 0 <= j < i ==> downs@[j] == minus_move(candles@, j),
        decreases n - i,
    {
        let up = candles[i].high.minus(candles[i - 1].high);
        let down = candles[i - 1].low.minus(candles[i].low);
        ups.push(
            if down.below(up) && whole::<V>(0).below(up) {
                up
            } else {
                whole(0)
            },
        );
        downs.push(
            if up.below(down) && whole::<V>(0).below(down) {
                down
            } else {
                whole(0)
            },
        );
        i += 1;
    }
    assert(ups@ =~= plus_moves(candles@));
    assert(downs@ =~= minus_moves(candles@));
    let ranges = true_ranges(candles);
    let count: V = V::from_count(period);
    let mut up_sum = sum_of(ups.as_slice(), 1, period + 1);
    let mut down_sum = sum_of(downs.as_slice(), 1, period + 1);
    let mut range_sum = sum_of(ranges.as_slice(), 1, period + 1);
    let mut plus_dis: Vec<V> = Vec::with_capacity(n - period);
    let mut minus_dis: Vec<V> = Vec::with_capacity(n - period);
    let mut indices: Vec<V> = Vec::with_capacity(n - period);
    let mut at: usize = period;
    while at < n
        invariant
            1 <= period <= at <= n,
            2 * period + 1 <= n,
            n == candles@.len(),
            ups@ == plus_moves(candles@),
            downs@ == minus_moves(candles@),
            ranges@ == true_ranges_of(candles@),
            count == V::from_count(period),
            at < n ==> up_sum == running_sum(ups@, period, at as int),
            at < n ==> down_sum == running_sum(downs@, period, at as int),
            at < n ==> range_sum == running_sum(ranges@, period, at as int),
            plus_dis@.len() == at - period,
            minus_dis@.len() == at - period,
            indices@.len() == at - period,
            forall|m: int|
                0 <= m < at - period ==> plus_dis@[m] == plus_di_at(candles@, period, m + period),
            forall|m: int|
                0 <= m < at - period ==> minus_dis@[m] == minus_di_at(
                    candles@,
                    period,
                    m + period,
                ),
            forall|m: int| 0 <= m < at - period ==> indices@[m] == dx_seq(candles@, period)[m],
        decreases n - at,
    {
        let plus = directional_of(up_sum, range_sum);
        let minus = directional_of(down_sum, range_sum);
        plus_dis.push(plus);
        minus_dis.push(minus);
        indices.push(index_of(plus, minus));
        at += 1;
        if at < n {
            up_sum = up_sum.minus(up_sum.over(count)).plus(ups[at]);
            down_sum = down_sum.minus(down_sum.over(count)).plus(downs[at]);
            range_sum = range_sum.minus(range_sum.over(count)).plus(ranges[at]);
        }
    }
    assert(indices@ =~= dx_seq(candles@, period));
    let averages = wilder(indices.as_slice(), period);
    let mut k: usize = 0;
    while k < averages.len()
        invariant
            k <= averages@.len(),
            1 <= period,
            2 * period + 1 <= n,
            n == candles@.len(),
            indices@ == dx_seq(candles@, period),
            averages@ == wilder_seq(indices@, period),
            plus_dis@.len() == n - period,
            minus_dis@.len() == n - period,
            forall|m: int|
                0 <= m < n - period ==> plus_dis@[m] == plus_di_at(candles@, period, m + period),
            forall|m: int|
                0 <= m < n - period ==> minus_dis@[m] == minus_di_at(candles@, period, m + period),
            data@.len() == k,
            forall|j: int| 0 <= j < k ==> data@[j] == adx_at(candles@, period, j),
        decreases averages@.len() - k,
    {
        data.push(
            AdxPoint {
                time: candles[k + 2 * period - 1].time,
                adx: averages[k],
                plus_di: plus_dis[k + period - 1],
                minus_di: minus_dis[k + period - 1],
            },
        );
        k += 1;
    }
    assert(data@ =~= adx_spec(candles@, period));
    AdxResult { period, data }
}

} // verus!
