use crate::lookup::{position, TimeIndex};
use crate::models::candle::Candle;
use crate::models::indicator::{
    BollingerBandsPoint, MacdPoint, MacdResult, RsiPoint, StochasticPoint, StochasticResult,
};
use crate::models::signal::{signal_views, SignalPoint, SignalType, SignalView};
use crate::scalar::{whole, Scalar};
use crate::series::{times_among, times_of};
use vstd::prelude::*;

verus! {

/// The signals with one more, where `condition` holds.
pub open spec fn with_signal<V>(
    signals: Seq<SignalView<V>>,
    condition: bool,
    signal: SignalView<V>,
) -> Seq<SignalView<V>> {
    if condition {
        signals.push(signal)
    } else {
        signals
    }
}

/// Whether each signal stands on one of the times.
pub open spec fn times_within<V>(signals: Seq<SignalView<V>>, times: Seq<i64>) -> bool {
    forall|k: int| 0 <= k < signals.len() ==> times.contains((#[trigger] signals[k]).time)
}

/// Signals that stand on some times stand on every series of times that
/// holds those.
pub proof fn lemma_times_within_wider<V>(
    signals: Seq<SignalView<V>>,
    times: Seq<i64>,
    others: Seq<i64>,
)
    requires
        times_within(signals, times),
        times_among(times, others),
    ensures
        times_within(signals, others),
{
    assert forall|k: int| 0 <= k < signals.len() implies others.contains(
        (#[trigger] signals[k]).time,
    ) by {
        let i = choose|i: int| 0 <= i < times.len() && times[i] == signals[k].time;
        assert(others.contains(times[i]));
    }
}

/// Puts one more signal behind the others.
pub fn emit<V: Scalar>(
    signals: &mut Vec<SignalPoint<V>>,
    time: i64,
    signal_type: SignalType,
    price: V,
    rsi: V,
    source: &str,
)
    ensures
        signal_views(final(signals)@) == signal_views(old(signals)@).push(
            SignalView { time, signal_type, price, rsi, source: source@ },
        ),
        forall|times: Seq<i64>|
            times.contains(time) && times_within(signal_views(old(signals)@), times)
                ==> #[trigger] times_within(signal_views(final(signals)@), times),
{
    let ghost before = signal_views(signals@);
    signals.push(SignalPoint { time, signal_type, price, rsi, source: source.to_owned() });
    assert(signal_views(signals@) =~= before.push(
        SignalView { time, signal_type, price, rsi, source: source@ },
    ));
    assert forall|times: Seq<i64>|
        times.contains(time) && times_within(before, times) implies #[trigger] times_within(
        signal_views(signals@),
        times,
    ) by {
        assert forall|k: int| 0 <= k < signal_views(signals@).len() implies times.contains(
            (#[trigger] signal_views(signals@)[k]).time,
        ) by {
            if k < before.len() {
                assert(signal_views(signals@)[k] == before[k]);
            }
        }
    }
}

/// The close of the candle at time `t`, or zero where there is none.
pub open spec fn close_at<V: Scalar>(candles: Seq<Candle<V>>, t: i64) -> V {
    match position(times_of(candles), t) {
        Some(i) => candles[i as int].close,
        None => whole::<V>(0),
    }
}

/// The close of the candle at time `t`, or zero where there is none.
pub fn close_of<V: Scalar>(candles: &[Candle<V>], index: &TimeIndex, t: i64) -> (r: V)
    requires
        index@ == times_of(candles@),
    ensures
        r == close_at(candles@, t),
{
    match index.find(t) {
        Some(i) => candles[i].close,
        None => whole(0),
    }
}

/// The signals with those of one candle: where the bands and the index
/// both have a point at the candle's time, a close at or below the lower
/// band is a strong buy for an index under thirty and a weak buy for one
/// under fifty; a close at or above the upper band is a strong sell for
/// an index over seventy and a weak sell for one over fifty.
pub open spec fn bb_rsi_step<V: Scalar>(
    signals: Seq<SignalView<V>>,
    bb: Seq<BollingerBandsPoint<V>>,
    rsi: Seq<RsiPoint<V>>,
    c: Candle<V>,
) -> Seq<SignalView<V>> {
    match (position(times_of(bb), c.time), position(times_of(rsi), c.time)) {
        (Some(b), Some(r)) => {
            let bands = bb[b as int];
            let strength = rsi[r as int].value;
            let low = c.close.at_most(bands.lower);
            let high = bands.upper.at_most(c.close);
            let found = |signal_type: SignalType|
                SignalView {
                    time: c.time,
                    signal_type,
                    price: c.close,
                    rsi: strength,
                    source: "bb_rsi"@,
                };
            let bought = with_signal(
                with_signal(
                    signals,
                    low && strength.below(whole::<V>(30)),
                    found(SignalType::StrongBuy),
                ),
                low && !strength.below(whole::<V>(30)) && strength.below(whole::<V>(50)),
                found(SignalType::WeakBuy),
            );
            with_signal(
                with_signal(
                    bought,
                    high && whole::<V>(70).below(strength),
                    found(SignalType::StrongSell),
                ),
                high && !whole::<V>(70).below(strength) && whole::<V>(50).below(strength),
                found(SignalType::WeakSell),
            )
        },
        _ => signals,
    }
}

/// The BB+RSI signals of the first `n` candles, in the candles' order.
pub open spec fn bb_rsi_signals<V: Scalar>(
    bb: Seq<BollingerBandsPoint<V>>,
    rsi: Seq<RsiPoint<V>>,
    candles: Seq<Candle<V>>,
    n: int,
) -> Seq<SignalView<V>>
    decreases n,
{
    if n <= 0 {
        Seq::empty()
    } else {
        bb_rsi_step(bb_rsi_signals(bb, rsi, candles, n - 1), bb, rsi, candles[n - 1])
    }
}

/// The signals of the closes against the Bollinger bands, graded by the
/// relative strength index.
pub fn detect_bb_rsi<V: Scalar>(
    bb: &[BollingerBandsPoint<V>],
    rsi: &[RsiPoint<V>],
    candles: &[Candle<V>],
) -> (r: Vec<SignalPoint<V>>)
    ensures
        signal_views(r@) == bb_rsi_signals(bb@, rsi@, candles@, candles@.len() as int),
        times_within(signal_views(r@), times_of(candles@)),
{
    let bands = TimeIndex::build(bb);
    let strengths = TimeIndex::build(rsi);
    let mut signals: Vec<SignalPoint<V>> = Vec::new();
    let n = candles.len();
    let mut i: usize = 0;
    assert(signal_views(signals@) =~= Seq::<SignalView<V>>::empty());
    while i < n
        invariant
            times_within(signal_views(signals@), times_of(candles@)),
            i <= n,
            n == candles@.len(),
            bands@ == times_of(bb@),
            strengths@ == times_of(rsi@),
            signal_views(signals@) == bb_rsi_signals(bb@, rsi@, candles@, i as int),
        decreases n - i,
    {
        let c = candles[i];
        assert(times_of(candles@)[i as int] == c.time);
        if let Some(b) = bands.find(c.time) {
            if let Some(r) = strengths.find(c.time) {
                let strength = rsi[r].value;
                if c.close.at_most(bb[b].lower) {
                    if strength.below(whole(30)) {
                        emit(&mut signals, c.time, SignalType::StrongBuy, c.close, strength, "bb_rsi");
                    } else if strength.below(whole(50)) {
                        emit(&mut signals, c.time, SignalType::WeakBuy, c.close, strength, "bb_rsi");
                    }
                }
                if bb[b].upper.at_most(c.close) {
                    if whole::<V>(70).below(strength) {
                        emit(
                            &mut signals,
                            c.time,
                            SignalType::StrongSell,
                            c.close,
                            strength,
                            "bb_rsi",
                        );
                    } else if whole::<V>(50).below(strength) {
                        emit(&mut signals, c.time, SignalType::WeakSell, c.close, strength, "bb_rsi");
                    }
                }
            }
        }
        i += 1;
    }
    signals
}

/// The signals with those of one pair of neighbouring MACD points: a
/// bullish one where the line crosses above its signal line, a bearish
/// one where it crosses below.
pub open spec fn macd_step<V: Scalar>(
    signals: Seq<SignalView<V>>,
    before: MacdPoint<V>,
    now: MacdPoint<V>,
    candles: Seq<Candle<V>>,
) -> Seq<SignalView<V>> {
    let found = |signal_type: SignalType|
        SignalView {
            time: now.time,
            signal_type,
            price: close_at(candles, now.time),
            rsi: whole::<V>(0),
            source: "macd"@,
        };
    with_signal(
        with_signal(
            signals,
            before.macd.at_most(before.signal) && now.signal.below(now.macd),
            found(SignalType::MacdBullish),
        ),
        before.signal.at_most(before.macd) && now.macd.below(now.signal),
        found(SignalType::MacdBearish),
    )
}

/// The MACD signals of the first `n` points.
pub open spec fn macd_signals<V: Scalar>(
    macd: Seq<MacdPoint<V>>,
    candles: Seq<Candle<V>>,
    n: int,
) -> Seq<SignalView<V>>
    decreases n,
{
    if n <= 1 {
        Seq::empty()
    } else {
        macd_step(macd_signals(macd, candles, n - 1), macd[n - 2], macd[n - 1], candles)
    }
}

/// The crossings of the MACD line and its signal line.
pub fn detect_macd<V: Scalar>(macd: &MacdResult<V>, candles: &[Candle<V>]) -> (r: Vec<
    SignalPoint<V>,
>)
    ensures
        signal_views(r@) == macd_signals(macd.data@, candles@, macd.data@.len() as int),
        times_within(signal_views(r@), times_of(macd.data@)),
{
    let closes = TimeIndex::build(candles);
    let mut signals: Vec<SignalPoint<V>> = Vec::new();
    let n = macd.data.len();
    assert(signal_views(signals@) =~= Seq::<SignalView<V>>::empty());
    let mut i: usize = 1;
    while i < n
        invariant
            times_within(signal_views(signals@), times_of(macd.data@)),
            1 <= i,
            i <= n || (n == 0 && i == 1),
            n == macd.data@.len(),
            closes@ == times_of(candles@),
            signal_views(signals@) == macd_signals(macd.data@, candles@, i as int),
        decreases n - i,
    {
        let before = macd.data[i - 1];
        let now = macd.data[i];
        assert(times_of(macd.data@)[i as int] == now.time);
        let price = close_of(candles, &closes, now.time);
        if before.macd.at_most(before.signal) && now.signal.below(now.macd) {
            emit(&mut signals, now.time, SignalType::MacdBullish, price, whole(0), "macd");
        }
        if before.signal.at_most(before.macd) && now.macd.below(now.signal) {
            emit(&mut signals, now.time, SignalType::MacdBearish, price, whole(0), "macd");
        }
        i += 1;
    }
    signals
}

/// The signals with those of one pair of neighbouring stochastic points:
/// oversold where %K is under twenty and crosses above %D, overbought
/// where it is over eighty and crosses below.
pub open spec fn stochastic_step<V: Scalar>(
    signals: Seq<SignalView<V>>,
    before: StochasticPoint<V>,
    now: StochasticPoint<V>,
    candles: Seq<Candle<V>>,
) -> Seq<SignalView<V>> {
    let found = |signal_type: SignalType|
        SignalView {
            time: now.time,
            signal_type,
            price: close_at(candles, now.time),
            rsi: whole::<V>(0),
            source: "stochastic"@,
        };
    with_signal(
        with_signal(
            signals,
            now.k.below(whole::<V>(20)) && before.k.at_most(before.d) && now.d.below(now.k),
            found(SignalType::StochOversold),
        ),
        whole::<V>(80).below(now.k) && before.d.at_most(before.k) && now.k.below(now.d),
        found(SignalType::StochOverbought),
    )
}

/// The stochastic signals of the first `n` points.
pub open spec fn stochastic_signals<V: Scalar>(
    stoch: Seq<StochasticPoint<V>>,
    candles: Seq<Candle<V>>,
    n: int,
) -> Seq<SignalView<V>>
    decreases n,
{
    if n <= 1 {
        Seq::empty()
    } else {
        stochastic_step(stochastic_signals(stoch, candles, n - 1), stoch[n - 2], stoch[n - 1], candles)
    }
}

/// The crossings of %K and %D in oversold and overbought territory.
pub fn detect_stochastic<V: Scalar>(stoch: &StochasticResult<V>, candles: &[Candle<V>]) -> (r: Vec<
    SignalPoint<V>,
>)
    ensures
        signal_views(r@) == stochastic_signals(stoch.data@, candles@, stoch.data@.len() as int),
        times_within(signal_views(r@), times_of(stoch.data@)),
{
    let closes = TimeIndex::build(candles);
    let mut signals: Vec<SignalPoint<V>> = Vec::new();
    let n = stoch.data.len();
    assert(signal_views(signals@) =~= Seq::<SignalView<V>>::empty());
    let mut i: usize = 1;
    while i < n
        invariant
            times_within(signal_views(signals@), times_of(stoch.data@)),
            1 <= i,
            i <= n || (n == 0 && i == 1),
            n == stoch.data@.len(),
            closes@ == times_of(candles@),
            signal_views(signals@) == stochastic_signals(stoch.data@, candles@, i as int),
        decreases n - i,
    {
        let before = stoch.data[i - 1];
        let now = stoch.data[i];
        assert(times_of(stoch.data@)[i as int] == now.time);
        let price = close_of(candles, &closes, now.time);
        if now.k.below(whole(20)) && before.k.at_most(before.d) && now.d.below(now.k) {
            emit(&mut signals, now.time, SignalType::StochOversold, price, whole(0), "stochastic");
        }
        if whole::<V>(80).below(now.k) && before.d.at_most(before.k) && now.k.below(now.d) {
            emit(&mut signals, now.time, SignalType::StochOverbought, price, whole(0), "stochastic");
        }
        i += 1;
    }
    signals
}

} // verus!
