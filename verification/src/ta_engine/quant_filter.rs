use crate::lookup::{position, TimeIndex};
use crate::models::candle::Candle;
use crate::models::params::SignalFilterParams;
use crate::models::signal::{
    is_buy_signal, is_buy_spec, is_sell_signal, is_sell_spec, is_strong_signal, is_strong_spec,
    signal_views, SignalPoint, SignalType, SignalView,
};
use crate::scalar::{clamp, whole, Scalar};
use crate::series::{closes, closes_of, sum_range, times_of};
use crate::ta_engine::signal::{emit, times_within};
use vstd::prelude::*;

verus! {

/// Where the close stands against its long average.
#[derive(Debug, Clone, Copy, PartialEq, Eq, Structural)]
pub enum Regime {
    Bullish,
    Bearish,
    Neutral,
    Unknown,
}

/// The sums of the leading values: the `i`-th is the sum of the first `i`
/// values, added up from the left.
pub open spec fn prefix_sums<V: Scalar>(values: Seq<V>) -> Seq<V> {
    Seq::new(values.len() + 1, |i: int| sum_range(values, 0, i))
}

/// The sums of the leading values.
pub fn build_prefix_sum<V: Scalar>(values: &[V]) -> (r: Vec<V>)
    ensures
        r@ == prefix_sums(values@),
{
    let n = values.len();
    let mut prefix: Vec<V> = Vec::new();
    prefix.push(whole(0));
    let mut i: usize = 0;
    while i < n
        invariant
            i <= n,
            n == values@.len(),
            prefix@.len() == i + 1,
            forall|j: int| 0 <= j <= i ==> prefix@[j] == sum_range(values@, 0, j),
        decreases n - i,
    {
        let next = prefix[i].plus(values[i]);
        prefix.push(next);
        i += 1;
    }
    assert(prefix@ =~= prefix_sums(values@));
    prefix
}

/// The regime at candle `idx`: the close is held against the mean of the
/// last `period` closes. It is unknown before the window has filled and
/// where the mean is not above epsilon; bullish where the close is more
/// than `buffer` above the mean, as a share of the mean; bearish where it
/// is more than `buffer` below.
pub open spec fn regime_spec<V: Scalar>(idx: int, values: Seq<V>, period: usize, buffer: V) -> Regime {
    if period == 0 || idx + 1 < period {
        Regime::Unknown
    } else {
        let mean = sum_range(values, 0, idx + 1).minus(sum_range(values, 0, idx + 1 - period)).over(
            V::from_count(period),
        );
        let distance = values[idx].over(mean).minus(whole::<V>(1));
        if mean.at_most(V::epsilon()) {
            Regime::Unknown
        } else if buffer.below(distance) {
            Regime::Bullish
        } else if distance.below(buffer.negated()) {
            Regime::Bearish
        } else {
            Regime::Neutral
        }
    }
}

/// The regime at candle `idx`, from the closes and their leading sums.
pub fn compute_regime<V: Scalar>(
    idx: usize,
    values: &[V],
    prefix: &[V],
    period: usize,
    buffer: V,
) -> (r: Regime)
    requires
        idx < values@.len(),
        prefix@ == prefix_sums(values@),
    ensures
        r == regime_spec(idx as int, values@, period, buffer),
{
    let n = values.len();
    if period == 0 || idx + 1 < period {
        return Regime::Unknown;
    }
    let start = idx + 1 - period;
    let mean = prefix[idx + 1].minus(prefix[start]).over(V::from_count(period));
    if mean.at_most(V::epsilon()) {
        return Regime::Unknown;
    }
    let distance = values[idx].over(mean).minus(whole(1));
    if buffer.below(distance) {
        Regime::Bullish
    } else if distance.below(buffer.negated()) {
        Regime::Bearish
    } else {
        Regime::Neutral
    }
}

/// The momentum at candle `idx`: the gain of the close over the close
/// `period` candles before, as a share of that close. There is none
/// before that many candles have passed, nor where that close is not
/// above epsilon.
pub open spec fn momentum_spec<V: Scalar>(idx: int, values: Seq<V>, period: usize) -> Option<V> {
    if period == 0 || idx < period || values[idx - period].at_most(V::epsilon()) {
        None
    } else {
        Some(values[idx].over(values[idx - period]).minus(whole::<V>(1)))
    }
}

/// The momentum at candle `idx`.
pub fn compute_momentum<V: Scalar>(idx: usize, values: &[V], period: usize) -> (r: Option<V>)
    requires
        idx < values@.len(),
    ensures
        r == momentum_spec(idx as int, values@, period),
{
    if period == 0 || idx < period {
        return None;
    }
    let past = values[idx - period];
    if past.at_most(V::epsilon()) {
        return None;
    }
    Some(values[idx].over(past).minus(whole(1)))
}

/// The logarithmic return at value `i`: the logarithm of the value over
/// the value before, or zero where either is not above epsilon. The
/// first value has none.
pub open spec fn log_return<V: Scalar>(values: Seq<V>, i: int) -> V {
    if i >= 1 && V::epsilon().below(values[i - 1]) && V::epsilon().below(values[i]) {
        values[i].over(values[i - 1]).ln()
    } else {
        whole::<V>(0)
    }
}

/// The logarithmic returns of a series of values.
pub open spec fn log_returns<V: Scalar>(values: Seq<V>) -> Seq<V> {
    Seq::new(values.len(), |i: int| log_return(values, i))
}

/// The squares of the logarithmic returns of a series of values.
pub open spec fn squared_returns<V: Scalar>(values: Seq<V>) -> Seq<V> {
    Seq::new(values.len(), |i: int| log_return(values, i).times(log_return(values, i)))
}

/// The volatility at value `idx`: the standard deviation of the last
/// `period` logarithmic returns, from the difference of their mean
/// square and their squared mean, which is not taken below zero.
pub open spec fn volatility_at<V: Scalar>(values: Seq<V>, period: usize, idx: int) -> V {
    let count = V::from_count(period);
    let start = idx + 1 - period;
    let sum = sum_range(log_returns(values), 0, idx + 1).minus(
        sum_range(log_returns(values), 0, start),
    );
    let square_sum = sum_range(squared_returns(values), 0, idx + 1).minus(
        sum_range(squared_returns(values), 0, start),
    );
    let mean = sum.over(count);
    square_sum.over(count).minus(mean.times(mean)).larger(whole::<V>(0)).root()
}

/// The rolling volatility of a series of values: none where the period
/// is zero or not below the number of values, and none before `period`
/// values have passed.
pub open spec fn rolling_volatility<V: Scalar>(values: Seq<V>, period: usize) -> Seq<Option<V>> {
    Seq::new(
        values.len(),
        |idx: int|
            if period == 0 || values.len() <= period || idx < period {
                None
            } else {
                Some(volatility_at(values, period, idx))
            },
    )
}

/// The rolling volatility of a series of values.
pub fn build_rolling_volatility<V: Scalar>(values: &[V], period: usize) -> (r: Vec<Option<V>>)
    ensures
        r@ == rolling_volatility(values@, period),
{
    let n = values.len();
    let mut result: Vec<Option<V>> = Vec::with_capacity(n);
    if n == 0 || period == 0 || n <= period {
        let mut i: usize = 0;
        while i < n
            invariant
                i <= n,
                n == values@.len(),
                period == 0 || n <= period,
                result@.len() == i,
                forall|j: int| 0 <= j < i ==> result@[j] == None::<V>,
            decreases n - i,
        {
            result.push(None);
            i += 1;
        }
        assert(result@ =~= rolling_volatility(values@, period));
        return result;
    }
    let mut changes: Vec<V> = Vec::with_capacity(n);
    let mut squares: Vec<V> = Vec::with_capacity(n);
    changes.push(whole(0));
    squares.push(whole::<V>(0).times(whole(0)));
    let mut i: usize = 1;
    while i < n
        invariant
            1 <= i <= n,
            n == values@.len(),
            changes@.len() == i,
            squares@.len() == i,
            forall|j: int| 0 <= j < i ==> changes@[j] == log_return(values@, j),
            forall|j: int|
                0 <= j < i ==> squares@[j] == log_return(values@, j).times(log_return(values@, j)),
        decreases n - i,
    {
        let before = values[i - 1];
        let now = values[i];
        let change = if V::epsilon().below(before) && V::epsilon().below(now) {
            now.over(before).ln()
        } else {
            whole(0)
        };
        changes.push(change);
        squares.push(change.times(change));
        i += 1;
    }
    assert(changes@ =~= log_returns(values@));
    assert(squares@ =~= squared_returns(values@));
    let sums = build_prefix_sum(changes.as_slice());
    let square_sums = build_prefix_sum(squares.as_slice());
    let count: V = V::from_count(period);
    let mut idx: usize = 0;
    while idx < n
        invariant
            idx <= n,
            n == values@.len(),
            0 < period < n,
            changes@ == log_returns(values@),
            squares@ == squared_returns(values@),
            sums@ == prefix_sums(changes@),
            square_sums@ == prefix_sums(squares@),
            count == V::from_count(period),
            result@.len() == idx,
            forall|j: int| 0 <= j < idx ==> result@[j] == rolling_volatility(values@, period)[j],
        decreases n - idx,
    {
        if idx < period {
            result.push(None);
        } else {
            let start = idx + 1 - period;
            let sum = sums[idx + 1].minus(sums[start]);
            let square_sum = square_sums[idx + 1].minus(square_sums[start]);
            let mean = sum.over(count);
            let variance = square_sum.over(count).minus(mean.times(mean)).larger(whole(0));
            result.push(Some(variance.root()));
        }
        idx += 1;
    }
    assert(result@ =~= rolling_volatility(values@, period));
    result
}

/// How many of `vols[lo..hi]` have a value.
pub open spec fn ranked<V: Scalar>(vols: Seq<Option<V>>, lo: int, hi: int) -> nat
    decreases hi - lo,
{
    if hi <= lo {
        0
    } else {
        ranked(vols, lo, hi - 1) + (if vols[hi - 1] is Some {
            1nat
        } else {
            0nat
        })
    }
}

/// How many of `vols[lo..hi]` have a value that is at most `current`.
pub open spec fn ranked_at_most<V: Scalar>(vols: Seq<Option<V>>, current: V, lo: int, hi: int) -> nat
    decreases hi - lo,
{
    if hi <= lo {
        0
    } else {
        ranked_at_most(vols, current, lo, hi - 1) + (match vols[hi - 1] {
            Some(v) => if v.at_most(current) {
                1nat
            } else {
                0nat
            },
            None => 0nat,
        })
    }
}

/// The first of the `rank_period` values that end with value `idx`.
pub open spec fn rank_start(idx: int, rank_period: usize) -> int {
    if idx < rank_period - 1 {
        0
    } else {
        idx - (rank_period - 1)
    }
}

/// The rank of the volatility at `idx` among the last `rank_period`
/// volatilities: the share of them that are at most as high. There is
/// none where there is no volatility at `idx`, nor where fewer than ten
/// are there to rank among.
pub open spec fn volatility_percentile<V: Scalar>(
    vols: Seq<Option<V>>,
    idx: int,
    rank_period: usize,
) -> Option<V> {
    if rank_period == 0 || idx >= vols.len() {
        None
    } else {
        match vols[idx] {
            None => None,
            Some(current) => {
                let start = rank_start(idx, rank_period);
                if ranked(vols, start, idx + 1) < 10 {
                    None
                } else {
                    Some(
                        V::from_count(
                            ranked_at_most(vols, current, start, idx + 1) as usize,
                        ).over(V::from_count(ranked(vols, start, idx + 1) as usize)),
                    )
                }
            },
        }
    }
}

/// The rank of the volatility at `idx` among the last `rank_period`
/// volatilities.
pub fn compute_volatility_percentile<V: Scalar>(
    rolling_vol: &[Option<V>],
    idx: usize,
    rank_period: usize,
) -> (r: Option<V>)
    ensures
        r == volatility_percentile(rolling_vol@, idx as int, rank_period),
{
    let n = rolling_vol.len();
    if rank_period == 0 || idx >= n {
        return None;
    }
    let current = match rolling_vol[idx] {
        Some(v) => v,
        None => {
            return None;
        },
    };
    let start = if idx < rank_period - 1 {
        0
    } else {
        idx - (rank_period - 1)
    };
    let mut total: usize = 0;
    let mut at_most: usize = 0;
    let mut i: usize = start;
    while i < idx + 1
        invariant
            start <= i <= idx + 1,
            idx < n,
            n == rolling_vol@.len(),
            total == ranked(rolling_vol@, start as int, i as int),
            at_most == ranked_at_most(rolling_vol@, current, start as int, i as int),
            total <= i - start,
            at_most <= i - start,
        decreases idx + 1 - i,
    {
        if let Some(v) = rolling_vol[i] {
            total += 1;
            if v.at_most(current) {
                at_most += 1;
            }
        }
        i += 1;
    }
    if total < 10 {
        return None;
    }
    Some(V::from_count(at_most).over(V::from_count(total)))
}

/// Whether a signal passes the gates that are switched on.
///
/// The regime gate rejects a buy in a bearish and a sell in a bullish
/// regime. The momentum gate rejects a buy whose momentum is below the
/// least for buys and a sell whose momentum is above the most for sells.
/// The volatility gate rejects a signal whose volatility ranks at or
/// above the cutoff. A strong signal passes the first two where
/// `keep_strong_counter_trend` is set, and the third where
/// `keep_strong_in_high_vol` is set.
pub open spec fn passes_spec<V: Scalar>(
    signal_type: SignalType,
    regime: Regime,
    momentum: Option<V>,
    vol_percentile: Option<V>,
    vol_cutoff: V,
    filter: SignalFilterParams<V>,
) -> bool {
    let buy = is_buy_spec(signal_type);
    let sell = is_sell_spec(signal_type);
    let excused = is_strong_spec(signal_type) && filter.keep_strong_counter_trend;
    let regime_rejects = filter.apply_regime_filter && ((buy && regime == Regime::Bearish) || (sell
        && regime == Regime::Bullish)) && !excused;
    let momentum_rejects = filter.apply_momentum_filter && (match momentum {
        Some(m) => ((buy && m.below(filter.min_momentum_for_buy)) || (sell
            && filter.max_momentum_for_sell.below(m))) && !excused,
        None => false,
    });
    let volatility_rejects = filter.apply_volatility_filter && (match vol_percentile {
        Some(p) => vol_cutoff.at_most(p) && !(is_strong_spec(signal_type)
            && filter.keep_strong_in_high_vol),
        None => false,
    });
    !regime_rejects && !momentum_rejects && !volatility_rejects
}

/// Whether a signal passes the gates that are switched on.
pub fn passes_quant_filter<V: Scalar>(
    signal_type: &SignalType,
    regime: Regime,
    momentum: Option<V>,
    vol_percentile: Option<V>,
    vol_cutoff: V,
    filter: &SignalFilterParams<V>,
) -> (r: bool)
    ensures
        r == passes_spec(*signal_type, regime, momentum, vol_percentile, vol_cutoff, *filter),
{
    let buy = is_buy_signal(signal_type);
    let sell = is_sell_signal(signal_type);
    let strong = is_strong_signal(signal_type);
    if filter.apply_regime_filter {
        let counter_trend = (buy && regime == Regime::Bearish) || (sell && regime
            == Regime::Bullish);
        if counter_trend && !(strong && filter.keep_strong_counter_trend) {
            return false;
        }
    }
    if filter.apply_momentum_filter {
        if let Some(m) = momentum {
            if buy && m.below(filter.min_momentum_for_buy) && !(strong
                && filter.keep_strong_counter_trend) {
                return false;
            }
            if sell && filter.max_momentum_for_sell.below(m) && !(strong
                && filter.keep_strong_counter_trend) {
                return false;
            }
        }
    }
    if filter.apply_volatility_filter {
        if let Some(p) = vol_percentile {
            if vol_cutoff.at_most(p) && !(strong && filter.keep_strong_in_high_vol) {
                return false;
            }
        }
    }
    true
}

/// Whether the filter keeps a signal of this kind at this time: it drops
/// one that stands on no candle, and else one that does not pass the
/// gates with the regime, the momentum and the volatility rank of its
/// candle.
pub open spec fn keeps<V: Scalar>(
    time: i64,
    signal_type: SignalType,
    candles: Seq<Candle<V>>,
    filter: SignalFilterParams<V>,
) -> bool {
    let values = closes_of(candles);
    match position(times_of(candles), time) {
        Some(idx) => passes_spec(
            signal_type,
            regime_spec(idx as int, values, filter.regime_period, filter.regime_buffer),
            momentum_spec(idx as int, values, filter.momentum_period),
            volatility_percentile(
                rolling_volatility(values, filter.volatility_period),
                idx as int,
                filter.volatility_rank_period,
            ),
            clamp(filter.high_vol_percentile, whole::<V>(0), whole::<V>(1)),
            filter,
        ),
        None => false,
    }
}

/// A signal with the tag of the filter in place of its own.
pub open spec fn retagged<V>(signal: SignalView<V>) -> SignalView<V> {
    SignalView {
        time: signal.time,
        signal_type: signal.signal_type,
        price: signal.price,
        rsi: signal.rsi,
        source: "bb_rsi_qf"@,
    }
}

/// Those of the first `n` signals that the filter keeps, retagged, in
/// their order.
pub open spec fn kept<V: Scalar>(
    signals: Seq<SignalView<V>>,
    candles: Seq<Candle<V>>,
    filter: SignalFilterParams<V>,
    n: int,
) -> Seq<SignalView<V>>
    decreases n,
{
    if n <= 0 {
        Seq::empty()
    } else if keeps(signals[n - 1].time, signals[n - 1].signal_type, candles, filter) {
        kept(signals, candles, filter, n - 1).push(retagged(signals[n - 1]))
    } else {
        kept(signals, candles, filter, n - 1)
    }
}

/// What the filter makes of a list of signals: the list itself where the
/// filter is off or there are no signals or no candles, else the signals
/// that it keeps.
pub open spec fn quant_filter_spec<V: Scalar>(
    signals: Seq<SignalView<V>>,
    candles: Seq<Candle<V>>,
    filter: SignalFilterParams<V>,
) -> Seq<SignalView<V>> {
    if !filter.enabled || signals.len() == 0 || candles.len() == 0 {
        signals
    } else {
        kept(signals, candles, filter, signals.len() as int)
    }
}

/// Gates the BB+RSI signals by regime, momentum and volatility.
pub fn apply_bb_rsi_quant_filter<V: Scalar>(
    signals: Vec<SignalPoint<V>>,
    candles: &[Candle<V>],
    filter: &SignalFilterParams<V>,
) -> (r: Vec<SignalPoint<V>>)
    ensures
        signal_views(r@) == quant_filter_spec(signal_views(signals@), candles@, *filter),
        times_within(signal_views(signals@), times_of(candles@)) ==> times_within(
            signal_views(r@),
            times_of(candles@),
        ),
{
    if !filter.enabled || signals.len() == 0 || candles.len() == 0 {
        return signals;
    }
    let values = closes(candles);
    let prefix = build_prefix_sum(values.as_slice());
    let rolling = build_rolling_volatility(values.as_slice(), filter.volatility_period);
    let index = TimeIndex::build(candles);
    let cutoff = clamp(filter.high_vol_percentile, whole(0), whole(1));
    let mut out: Vec<SignalPoint<V>> = Vec::new();
    let n = signals.len();
    let ghost views = signal_views(signals@);
    assert(signal_views(out@) =~= Seq::<SignalView<V>>::empty());
    let mut i: usize = 0;
    while i < n
        invariant
            i <= n,
            n == signals@.len(),
            views == signal_views(signals@),
            values@ == closes_of(candles@),
            prefix@ == prefix_sums(values@),
            rolling@ == rolling_volatility(values@, filter.volatility_period),
            index@ == times_of(candles@),
            cutoff == clamp(filter.high_vol_percentile, whole::<V>(0), whole::<V>(1)),
            signal_views(out@) == kept(views, candles@, *filter, i as int),
            times_within(signal_views(out@), times_of(candles@)),
        decreases n - i,
    {
        let signal = &signals[i];
        assert(views[i as int] == signal@);
        if let Some(idx) = index.find(signal.time) {
            assert(times_of(candles@)[idx as int] == signal.time);
            let regime = compute_regime(
                idx,
                values.as_slice(),
                prefix.as_slice(),
                filter.regime_period,
                filter.regime_buffer,
            );
            let momentum = compute_momentum(idx, values.as_slice(), filter.momentum_period);
            let rank = compute_volatility_percentile(
                rolling.as_slice(),
                idx,
                filter.volatility_rank_period,
            );
            if passes_quant_filter(&signal.signal_type, regime, momentum, rank, cutoff, filter) {
                emit(&mut out, signal.time, signal.signal_type, signal.price, signal.rsi, "bb_rsi_qf");
            }
        }
        i += 1;
    }
    out
}

proof fn lemma_kept_are_kept<V: Scalar>(
    signals: Seq<SignalView<V>>,
    candles: Seq<Candle<V>>,
    filter: SignalFilterParams<V>,
    n: int,
)
    requires
        0 <= n <= signals.len(),
    ensures
        forall|k: int|
            0 <= k < kept(signals, candles, filter, n).len() ==> {
                let s = #[trigger] kept(signals, candles, filter, n)[k];
                keeps(s.time, s.signal_type, candles, filter) && retagged(s) == s
            },
    decreases n,
{
    if n > 0 {
        lemma_kept_are_kept(signals, candles, filter, n - 1);
    }
}

proof fn lemma_kept_again<V: Scalar>(
    signals: Seq<SignalView<V>>,
    candles: Seq<Candle<V>>,
    filter: SignalFilterParams<V>,
    n: int,
)
    requires
        0 <= n <= signals.len(),
        forall|k: int|
            0 <= k < signals.len() ==> keeps(
                (#[trigger] signals[k]).time,
                signals[k].signal_type,
                candles,
                filter,
            ) && retagged(signals[k]) == signals[k],
    ensures
        kept(signals, candles, filter, n) == signals.take(n),
    decreases n,
{
    if n > 0 {
        lemma_kept_again(signals, candles, filter, n - 1);
        assert(signals.take(n) =~= signals.take(n - 1).push(signals[n - 1]));
    } else {
        assert(signals.take(0) =~= Seq::<SignalView<V>>::empty());
    }
}

/// Filtering twice is filtering once: the filter keeps every signal that
/// it has kept before, unchanged.
pub proof fn lemma_filter_idempotent<V: Scalar>(
    signals: Seq<SignalView<V>>,
    candles: Seq<Candle<V>>,
    filter: SignalFilterParams<V>,
)
    ensures
        quant_filter_spec(quant_filter_spec(signals, candles, filter), candles, filter)
            == quant_filter_spec(signals, candles, filter),
{
    let once = quant_filter_spec(signals, candles, filter);
    if filter.enabled && signals.len() > 0 && candles.len() > 0 && once.len() > 0 {
        lemma_kept_are_kept(signals, candles, filter, signals.len() as int);
        lemma_kept_again(once, candles, filter, once.len() as int);
        assert(once.take(once.len() as int) =~= once);
    }
}

} // verus!
