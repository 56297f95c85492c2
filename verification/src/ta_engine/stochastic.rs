use crate::models::candle::Candle;
use crate::models::indicator::{StochasticPoint, StochasticResult};
use crate::scalar::{negligible, whole, Scalar};
use crate::series::stands_on;
use crate::ta_engine::helpers::{
    highest_high, highest_high_spec, lowest_low, lowest_low_spec, window_count,
};
use crate::ta_engine::sma;
use crate::ta_engine::sma::sma_seq;
use vstd::prelude::*;

verus! {

/// Where `close` lies between `low` and `high`, in hundredths; fifty
/// where the range is too small to divide by.
pub open spec fn position_in_range<V: Scalar>(close: V, low: V, high: V) -> V {
    if negligible(high.minus(low)) {
        whole::<V>(50)
    } else {
        whole::<V>(100).times(close.minus(low)).over(high.minus(low))
    }
}

/// The raw %K: for each window of `k_period` candles, where the close of
/// its last candle lies between the window's lowest low and highest high.
pub open spec fn raw_k<V: Scalar>(candles: Seq<Candle<V>>, k_period: usize) -> Seq<V> {
    Seq::new(
        window_count(candles.len(), k_period),
        |i: int|
            position_in_range(
                candles[i + k_period - 1].close,
                lowest_low_spec(candles, k_period)[i],
                highest_high_spec(candles, k_period)[i],
            ),
    )
}

/// The `i`-th point of the oscillator: %K is the simple average of the
/// raw %K over `smooth`, %D that of %K over `d_period`.
pub open spec fn stochastic_at<V: Scalar>(
    candles: Seq<Candle<V>>,
    k_period: usize,
    d_period: usize,
    smooth: usize,
    i: int,
) -> StochasticPoint<V> {
    let k_line = sma_seq(raw_k(candles, k_period), smooth);
    let d_line = sma_seq(k_line, d_period);
    StochasticPoint {
        time: candles[i + k_period - 1 + smooth - 1 + d_period - 1].time,
        k: k_line[i + d_period - 1],
        d: d_line[i],
    }
}

/// How many points the oscillator has: each smoothing takes its own
/// warm-up.
pub open spec fn stochastic_count(n: nat, k_period: usize, d_period: usize, smooth: usize) -> nat {
    window_count(window_count(window_count(n, k_period), smooth), d_period)
}

/// The stochastic oscillator of a series of candles.
pub open spec fn stochastic_spec<V: Scalar>(
    candles: Seq<Candle<V>>,
    k_period: usize,
    d_period: usize,
    smooth: usize,
) -> Seq<StochasticPoint<V>> {
    Seq::new(
        stochastic_count(candles.len(), k_period, d_period, smooth),
        |i: int| stochastic_at(candles, k_period, d_period, smooth, i),
    )
}

/// Where `close` lies between `low` and `high`, in hundredths.
pub fn position<V: Scalar>(close: V, low: V, high: V) -> (r: V)
    ensures
        r == position_in_range(close, low, high),
{
    if negligible(high.minus(low)) {
        whole(50)
    } else {
        whole::<V>(100).times(close.minus(low)).over(high.minus(low))
    }
}

/// The stochastic oscillator of a series of candles.
pub fn calculate<V: Scalar>(
    candles: &[Candle<V>],
    k_period: usize,
    d_period: usize,
    smooth: usize,
) -> (r: StochasticResult<V>)
    ensures
        r.data@.len() == stochastic_count(candles@.len(), k_period, d_period, smooth),
        stands_on(r.data@, candles@, k_period - 1 + smooth - 1 + d_period - 1),
        r.data@ == stochastic_spec(candles@, k_period, d_period, smooth),
{
    let n = candles.len();
    let tops = highest_high(candles, k_period);
    let bottoms = lowest_low(candles, k_period);
    let mut raw: Vec<V> = Vec::with_capacity(tops.len());
    let mut i: usize = 0;
    while i < tops.len()
        invariant
            i <= tops@.len(),
            n == candles@.len(),
            tops@ == highest_high_spec(candles@, k_period),
            bottoms@ == lowest_low_spec(candles@, k_period),
            raw@.len() == i,
            forall|j: int| 0 <= j < i ==> raw@[j] == raw_k(candles@, k_period)[j],
        decreases tops@.len() - i,
    {
        raw.push(position(candles[i + k_period - 1].close, bottoms[i], tops[i]));
        i += 1;
    }
    assert(raw@ =~= raw_k(candles@, k_period));
    let k_line = sma::calculate_from_values(raw.as_slice(), smooth);
    let d_line = sma::calculate_from_values(k_line.as_slice(), d_period);
    let mut data: Vec<StochasticPoint<V>> = Vec::with_capacity(d_line.len());
    let mut k: usize = 0;
    while k < d_line.len()
        invariant
            k <= d_line@.len(),
            n == candles@.len(),
            raw@ == raw_k(candles@, k_period),
            k_line@ == sma_seq(raw@, smooth),
            d_line@ == sma_seq(k_line@, d_period),
            data@.len() == k,
            forall|j: int|
                0 <= j < k ==> data@[j] == stochastic_at(candles@, k_period, d_period, smooth, j),
        decreases d_line@.len() - k,
    {
        data.push(
            StochasticPoint {
                time: candles[k + k_period - 1 + smooth - 1 + d_period - 1].time,
                k: k_line[k + d_period - 1],
                d: d_line[k],
            },
        );
        k += 1;
    }
    assert(data@ =~= stochastic_spec(candles@, k_period, d_period, smooth));
    StochasticResult { data }
}

} // verus!
