use crate::models::candle::Candle;
use crate::models::indicator::{MacdPoint, MacdResult};
use crate::scalar::Scalar;
use crate::series::{closes, closes_of, stands_on};
use crate::ta_engine::ema;
use crate::ta_engine::ema::ema_seq;
use crate::ta_engine::helpers::window_count;
use vstd::prelude::*;

verus! {

/// The MACD line: the fast exponential average less the slow one, from
/// the first value on that both have.
pub open spec fn macd_line<V: Scalar>(values: Seq<V>, fast: usize, slow: usize) -> Seq<V> {
    let quick = ema_seq(values, fast);
    let slack = ema_seq(values, slow);
    Seq::new(slack.len(), |i: int| quick[i + slow - fast].minus(slack[i]))
}

/// The `i`-th point of MACD: the signal line is the exponential average of
/// the MACD line, the histogram the line less its signal.
pub open spec fn macd_at<V: Scalar>(
    candles: Seq<Candle<V>>,
    fast: usize,
    slow: usize,
    signal: usize,
    i: int,
) -> MacdPoint<V> {
    let line = macd_line(closes_of(candles), fast, slow);
    let smoothed = ema_seq(line, signal);
    MacdPoint {
        time: candles[i + slow - 1 + signal - 1].time,
        macd: line[i + signal - 1],
        signal: smoothed[i],
        histogram: line[i + signal - 1].minus(smoothed[i]),
    }
}

/// How many points MACD has: it is empty where the fast period is zero or
/// above the slow one.
pub open spec fn macd_count(n: nat, fast: usize, slow: usize, signal: usize) -> nat {
    if fast == 0 || slow < fast {
        0
    } else {
        window_count(window_count(n, slow), signal)
    }
}

/// MACD of a series of candles.
pub open spec fn macd_spec<V: Scalar>(
    candles: Seq<Candle<V>>,
    fast: usize,
    slow: usize,
    signal: usize,
) -> Seq<MacdPoint<V>> {
    Seq::new(
        macd_count(candles.len(), fast, slow, signal),
        |i: int| macd_at(candles, fast, slow, signal, i),
    )
}

/// MACD of the closes.
pub fn calculate<V: Scalar>(
    candles: &[Candle<V>],
    fast_period: usize,
    slow_period: usize,
    signal_period: usize,
) -> (r: MacdResult<V>)
    ensures
        r.data@.len() == macd_count(candles@.len(), fast_period, slow_period, signal_period),
        stands_on(r.data@, candles@, slow_period - 1 + signal_period - 1),
        r.data@ == macd_spec(candles@, fast_period, slow_period, signal_period),
{
    let mut data: Vec<MacdPoint<V>> = Vec::new();
    let n = candles.len();
    if fast_period == 0 || slow_period < fast_period || n < slow_period {
        assert(data@ =~= macd_spec(candles@, fast_period, slow_period, signal_period));
        return MacdResult { data };
    }
    let values = closes(candles);
    let quick = ema::calculate_from_values(values.as_slice(), fast_period);
    let slack = ema::calculate_from_values(values.as_slice(), slow_period);
    let offset = slow_period - fast_period;
    let mut line: Vec<V> = Vec::with_capacity(slack.len());
    let mut i: usize = 0;
    while i < slack.len()
        invariant
            i <= slack@.len(),
            n == candles@.len(),
            values@ == closes_of(candles@),
            quick@ == ema_seq(values@, fast_period),
            slack@ == ema_seq(values@, slow_period),
            1 <= fast_period <= slow_period <= n,
            offset == slow_period - fast_period,
            line@.len() == i,
            forall|j: int|
                0 <= j < i ==> line@[j] == macd_line(values@, fast_period, slow_period)[j],
        decreases slack@.len() - i,
    {
        line.push(quick[i + offset].minus(slack[i]));
        i += 1;
    }
    assert(line@ =~= macd_line(values@, fast_period, slow_period));
    let smoothed = ema::calculate_from_values(line.as_slice(), signal_period);
    let mut k: usize = 0;
    while k < smoothed.len()
        invariant
            k <= smoothed@.len(),
            n == candles@.len(),
            values@ == closes_of(candles@),
            line@ == macd_line(values@, fast_period, slow_period),
            smoothed@ == ema_seq(line@, signal_period),
            1 <= fast_period <= slow_period <= n,
            data@.len() == k,
            forall|j: int|
                0 <= j < k ==> data@[j] == macd_at(
                    candles@,
                    fast_period,
                    slow_period,
                    signal_period,
                    j,
                ),
        decreases smoothed@.len() - k,
    {
        let value = line[k + signal_period - 1];
        data.push(
            MacdPoint {
                time: candles[k + slow_period - 1 + signal_period - 1].time,
                macd: value,
                signal: smoothed[k],
                histogram: value.minus(smoothed[k]),
            },
        );
        k += 1;
    }
    assert(data@ =~= macd_spec(candles@, fast_period, slow_period, signal_period));
    MacdResult { data }
}

} // verus!
