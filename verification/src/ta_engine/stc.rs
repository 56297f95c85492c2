use crate::models::candle::Candle;
use crate::models::indicator::{StcPoint, StcResult};
use crate::scalar::{clamp, negligible, whole, Scalar};
use crate::series::{closes, closes_of, larger_range, largest_of, smaller_range, smallest_of, stands_on};
use crate::ta_engine::ema;
use crate::ta_engine::ema::ema_seq;
use crate::ta_engine::helpers::window_count;
use crate::ta_engine::macd::macd_line;
use vstd::prelude::*;

verus! {

/// The `k`-th value of the stochastic smoothing of a series: where the
/// last value of the `k`-th window lies in the window's range, in
/// hundredths, moved half the way from the value before. The first value
/// moves from zero; where the range is too small to divide by, the value
/// before is kept.
pub open spec fn smooth_at<V: Scalar>(values: Seq<V>, period: usize, k: int) -> V
    decreases k,
{
    let before = if k <= 0 {
        whole::<V>(0)
    } else {
        smooth_at(values, period, k - 1)
    };
    let highest = larger_range(values, V::neg_infinity(), k, k + period);
    let lowest = smaller_range(values, V::infinity(), k, k + period);
    let raw = if negligible(highest.minus(lowest)) {
        before
    } else {
        whole::<V>(100).times(values[k + period - 1].minus(lowest)).over(highest.minus(lowest))
    };
    before.plus(V::from_ratio(1, 2).times(raw.minus(before)))
}

/// The stochastic smoothing of a series, window by window.
pub open spec fn smooth_seq<V: Scalar>(values: Seq<V>, period: usize) -> Seq<V> {
    Seq::new(window_count(values.len(), period), |k: int| smooth_at(values, period, k))
}

/// How many points the cycle has: none where the fast period is zero or
/// above the slow one.
pub open spec fn stc_count(n: nat, tc_len: usize, fast_ma: usize, slow_ma: usize) -> nat {
    if fast_ma == 0 || slow_ma < fast_ma {
        0
    } else {
        window_count(window_count(window_count(n, slow_ma), tc_len), tc_len)
    }
}

/// The candle that the first point of the cycle stands on.
pub open spec fn stc_offset(tc_len: usize, slow_ma: usize) -> int {
    slow_ma - 1 + (tc_len - 1) * 2
}

/// The `i`-th point of the cycle: the MACD line smoothed twice, held
/// between zero and one hundred.
pub open spec fn stc_at<V: Scalar>(
    candles: Seq<Candle<V>>,
    tc_len: usize,
    fast_ma: usize,
    slow_ma: usize,
    i: int,
) -> StcPoint<V> {
    let line = macd_line(closes_of(candles), fast_ma, slow_ma);
    let twice = smooth_seq(smooth_seq(line, tc_len), tc_len);
    StcPoint {
        time: candles[i + stc_offset(tc_len, slow_ma)].time,
        value: clamp(twice[i], whole::<V>(0), whole::<V>(100)),
    }
}

/// The Schaff trend cycle of a series of candles.
pub open spec fn stc_spec<V: Scalar>(
    candles: Seq<Candle<V>>,
    tc_len: usize,
    fast_ma: usize,
    slow_ma: usize,
) -> Seq<StcPoint<V>> {
    Seq::new(
        stc_count(candles.len(), tc_len, fast_ma, slow_ma),
        |i: int| stc_at(candles, tc_len, fast_ma, slow_ma, i),
    )
}

/// The stochastic smoothing of a series of values.
pub fn stochastic_smooth<V: Scalar>(values: &[V], period: usize) -> (r: Vec<V>)
    ensures
        r@ == smooth_seq(values@, period),
{
    let mut result: Vec<V> = Vec::new();
    let n = values.len();
    if n < period || period == 0 {
        assert(result@ =~= smooth_seq(values@, period));
        return result;
    }
    let count = n - period + 1;
    let half: V = V::from_ratio(1, 2);
    let mut before: V = whole(0);
    let mut k: usize = 0;
    while k < count
        invariant
            k <= count,
            count == n - period + 1,
            n == values@.len(),
            period > 0,
            half == V::from_ratio(1, 2),
            before == (if k == 0 {
                whole::<V>(0)
            } else {
                smooth_at(values@, period, k - 1)
            }),
            result@.len() == k,
            forall|j: int| 0 <= j < k ==> result@[j] == smooth_at(values@, period, j),
        decreases count - k,
    {
        let highest = largest_of(values, V::neg_infinity(), k, k + period);
        let lowest = smallest_of(values, V::infinity(), k, k + period);
        let range = highest.minus(lowest);
        let raw = if negligible(range) {
            before
        } else {
            whole::<V>(100).times(values[k + period - 1].minus(lowest)).over(range)
        };
        let smoothed = before.plus(half.times(raw.minus(before)));
        before = smoothed;
        result.push(smoothed);
        k += 1;
    }
    assert(result@ =~= smooth_seq(values@, period));
    result
}

/// The Schaff trend cycle of the closes.
pub fn calculate<V: Scalar>(candles: &[Candle<V>], tc_len: usize, fast_ma: usize, slow_ma: usize) -> (r:
    StcResult<V>)
    ensures
        r.tc_len == tc_len,
        r.fast_ma == fast_ma,
        r.slow_ma == slow_ma,
        r.data@.len() == stc_count(candles@.len(), tc_len, fast_ma, slow_ma),
        stands_on(r.data@, candles@, stc_offset(tc_len, slow_ma)),
        r.data@ == stc_spec(candles@, tc_len, fast_ma, slow_ma),
{
    let mut data: Vec<StcPoint<V>> = Vec::new();
    let n = candles.len();
    if fast_ma == 0 || slow_ma < fast_ma || n < slow_ma {
        assert(data@ =~= stc_spec(candles@, tc_len, fast_ma, slow_ma));
        return StcResult { tc_len, fast_ma, slow_ma, data };
    }
    let values = closes(candles);
    let quick = ema::calculate_from_values(values.as_slice(), fast_ma);
    let slack = ema::calculate_from_values(values.as_slice(), slow_ma);
    let offset = slow_ma - fast_ma;
    let mut line: Vec<V> = Vec::with_capacity(slack.len());
    let mut i: usize = 0;
    while i < slack.len()
        invariant
            i <= slack@.len(),
            n == candles@.len(),
            values@ == closes_of(candles@),
            quick@ == ema_seq(values@, fast_ma),
            slack@ == ema_seq(values@, slow_ma),
            1 <= fast_ma <= slow_ma <= n,
            offset == slow_ma - fast_ma,
            line@.len() == i,
            forall|j: int| 0 <= j < i ==> line@[j] == macd_line(values@, fast_ma, slow_ma)[j],
        decreases slack@.len() - i,
    {
        line.push(quick[i + offset].minus(slack[i]));
        i += 1;
    }
    assert(line@ =~= macd_line(values@, fast_ma, slow_ma));
    let once = stochastic_smooth(line.as_slice(), tc_len);
    let twice = stochastic_smooth(once.as_slice(), tc_len);
    if twice.len() == 0 {
        assert(data@ =~= stc_spec(candles@, tc_len, fast_ma, slow_ma));
        return StcResult { tc_len, fast_ma, slow_ma, data };
    }
    assert(tc_len >= 1);
    assert(twice@.len() + slow_ma - 1 + (tc_len - 1) * 2 == n) by (nonlinear_arith)
        requires
            twice@.len() == window_count(
                window_count(window_count(n as nat, slow_ma), tc_len),
                tc_len,
            ),
            twice@.len() > 0,
            tc_len >= 1,
            slow_ma >= 1,
    ;
    let start = slow_ma - 1 + (tc_len - 1) * 2;
    let mut k: usize = 0;
    while k < twice.len()
        invariant
            k <= twice@.len(),
            n == candles@.len(),
            values@ == closes_of(candles@),
            line@ == macd_line(values@, fast_ma, slow_ma),
            once@ == smooth_seq(line@, tc_len),
            twice@ == smooth_seq(once@, tc_len),
            1 <= fast_ma <= slow_ma <= n,
            start == stc_offset(tc_len, slow_ma),
            twice@.len() + start == n,
            data@.len() == k,
            forall|j: int| 0 <= j < k ==> data@[j] == stc_at(candles@, tc_len, fast_ma, slow_ma, j),
        decreases twice@.len() - k,
    {
        data.push(
            StcPoint { time: candles[start + k].time, value: clamp(twice[k], whole(0), whole(100)) },
        );
        k += 1;
    }
    assert(data@ =~= stc_spec(candles@, tc_len, fast_ma, slow_ma));
    StcResult { tc_len, fast_ma, slow_ma, data }
}

} // verus!
