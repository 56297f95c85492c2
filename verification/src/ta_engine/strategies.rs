use crate::lookup::{position, TimeIndex};
use crate::models::candle::Candle;
use crate::models::indicator::{
    AdxPoint, AdxResult, BollingerBandsPoint, CmfPoint, CmfResult, KeltnerPoint, KeltnerResult,
    MaPoint, MacdPoint, MacdResult, MovingAverageResult, ObvPoint, ObvResult, ParabolicSarPoint,
    ParabolicSarResult, RsiPoint, StochasticPoint, StochasticResult, SupertrendPoint,
    SupertrendResult, VwapPoint, VwapResult,
};
use crate::models::signal::{signal_views, SignalPoint, SignalType, SignalView};
use crate::scalar::{whole, Scalar};
use crate::series::{sum_of, sum_range, times_of, volumes_of};
use crate::ta_engine::signal::{close_at, close_of, emit, times_within, with_signal};
use vstd::prelude::*;

verus! {

/// The ADX at time `t`, or zero where the index has no point there.
pub open spec fn adx_at_time<V: Scalar>(adx: Seq<AdxPoint<V>>, t: i64) -> V {
    match position(times_of(adx), t) {
        Some(a) => adx[a as int].adx,
        None => whole::<V>(0),
    }
}

/// The signals with that of one pair of neighbouring Supertrend points:
/// where the direction turns and the ADX at that time is not under
/// twenty-five, a buy for a turn upwards and a sell for any other.
pub open spec fn supertrend_adx_step<V: Scalar>(
    signals: Seq<SignalView<V>>,
    before: SupertrendPoint<V>,
    now: SupertrendPoint<V>,
    adx: Seq<AdxPoint<V>>,
    candles: Seq<Candle<V>>,
) -> Seq<SignalView<V>> {
    with_signal(
        signals,
        before.direction != now.direction && !adx_at_time(adx, now.time).below(whole::<V>(25)),
        SignalView {
            time: now.time,
            signal_type: if now.direction == 1 {
                SignalType::SupertrendBuy
            } else {
                SignalType::SupertrendSell
            },
            price: close_at(candles, now.time),
            rsi: whole::<V>(0),
            source: "supertrend_adx"@,
        },
    )
}

/// The Supertrend signals of the first `n` points.
pub open spec fn supertrend_adx_signals<V: Scalar>(
    st: Seq<SupertrendPoint<V>>,
    adx: Seq<AdxPoint<V>>,
    candles: Seq<Candle<V>>,
    n: int,
) -> Seq<SignalView<V>>
    decreases n,
{
    if n <= 1 {
        Seq::empty()
    } else {
        supertrend_adx_step(
            supertrend_adx_signals(st, adx, candles, n - 1),
            st[n - 2],
            st[n - 1],
            adx,
            candles,
        )
    }
}

/// The turns of the Supertrend that a strong trend confirms.
pub fn detect_supertrend_adx<V: Scalar>(
    st: &SupertrendResult<V>,
    adx: &AdxResult<V>,
    candles: &[Candle<V>],
) -> (r: Vec<SignalPoint<V>>)
    ensures
        signal_views(r@) == supertrend_adx_signals(
            st.data@,
            adx.data@,
            candles@,
            st.data@.len() as int,
        ),
        times_within(signal_views(r@), times_of(st.data@)),
{
    let strengths = TimeIndex::build(adx.data.as_slice());
    let closes = TimeIndex::build(candles);
    let mut signals: Vec<SignalPoint<V>> = Vec::new();
    let n = st.data.len();
    assert(signal_views(signals@) =~= Seq::<SignalView<V>>::empty());
    let mut i: usize = 1;
    while i < n
        invariant
            times_within(signal_views(signals@), times_of(st.data@)),
            1 <= i,
            i <= n || (n == 0 && i == 1),
            n == st.data@.len(),
            strengths@ == times_of(adx.data@),
            closes@ == times_of(candles@),
            signal_views(signals@) == supertrend_adx_signals(
                st.data@,
                adx.data@,
                candles@,
                i as int,
            ),
        decreases n - i,
    {
        let before = st.data[i - 1];
        let now = st.data[i];
        assert(times_of(st.data@)[i as int] == now.time);
        if before.direction != now.direction {
            let strength = match strengths.find(now.time) {
                Some(a) => adx.data[a].adx,
                None => whole(0),
            };
            if !strength.below(whole(25)) {
                let price = close_of(candles, &closes, now.time);
                let signal_type = if now.direction == 1 {
                    SignalType::SupertrendBuy
                } else {
                    SignalType::SupertrendSell
                };
                emit(&mut signals, now.time, signal_type, price, whole(0), "supertrend_adx");
            }
        }
        i += 1;
    }
    signals
}

/// The signals with those of one pair of neighbouring points of the fast
/// average: where the slow average has a point at both times, a buy
/// where the fast crosses above the slow, a sell where it crosses below.
pub open spec fn ema_crossover_step<V: Scalar>(
    signals: Seq<SignalView<V>>,
    before: MaPoint<V>,
    now: MaPoint<V>,
    slow: Seq<MaPoint<V>>,
    candles: Seq<Candle<V>>,
) -> Seq<SignalView<V>> {
    match (position(times_of(slow), now.time), position(times_of(slow), before.time)) {
        (Some(n), Some(b)) => {
            let slow_now = slow[n as int].value;
            let slow_before = slow[b as int].value;
            let found = |signal_type: SignalType|
                SignalView {
                    time: now.time,
                    signal_type,
                    price: close_at(candles, now.time),
                    rsi: whole::<V>(0),
                    source: "ema_crossover"@,
                };
            with_signal(
                with_signal(
                    signals,
                    before.value.at_most(slow_before) && slow_now.below(now.value),
                    found(SignalType::EmaCrossoverBuy),
                ),
                slow_before.at_most(before.value) && now.value.below(slow_now),
                found(SignalType::EmaCrossoverSell),
            )
        },
        _ => signals,
    }
}

/// The crossover signals of the first `n` points of the fast average.
pub open spec fn ema_crossover_signals<V: Scalar>(
    fast: Seq<MaPoint<V>>,
    slow: Seq<MaPoint<V>>,
    candles: Seq<Candle<V>>,
    n: int,
) -> Seq<SignalView<V>>
    decreases n,
{
    if n <= 1 {
        Seq::empty()
    } else {
        ema_crossover_step(
            ema_crossover_signals(fast, slow, candles, n - 1),
            fast[n - 2],
            fast[n - 1],
            slow,
            candles,
        )
    }
}

/// The crossings of a fast and a slow moving average.
pub fn detect_ema_crossover<V: Scalar>(
    fast: &MovingAverageResult<V>,
    slow: &MovingAverageResult<V>,
    candles: &[Candle<V>],
) -> (r: Vec<SignalPoint<V>>)
    ensures
        signal_views(r@) == ema_crossover_signals(
            fast.data@,
            slow.data@,
            candles@,
            fast.data@.len() as int,
        ),
        times_within(signal_views(r@), times_of(fast.data@)),
{
    let slows = TimeIndex::build(slow.data.as_slice());
    let closes = TimeIndex::build(candles);
    let mut signals: Vec<SignalPoint<V>> = Vec::new();
    let n = fast.data.len();
    assert(signal_views(signals@) =~= Seq::<SignalView<V>>::empty());
    let mut i: usize = 1;
    while i < n
        invariant
            times_within(signal_views(signals@), times_of(fast.data@)),
            1 <= i,
            i <= n || (n == 0 && i == 1),
            n == fast.data@.len(),
            slows@ == times_of(slow.data@),
            closes@ == times_of(candles@),
            signal_views(signals@) == ema_crossover_signals(
                fast.data@,
                slow.data@,
                candles@,
                i as int,
            ),
        decreases n - i,
    {
        let before = fast.data[i - 1];
        let now = fast.data[i];
        assert(times_of(fast.data@)[i as int] == now.time);
        if let Some(at) = slows.find(now.time) {
            if let Some(earlier) = slows.find(before.time) {
                let slow_now = slow.data[at].value;
                let slow_before = slow.data[earlier].value;
                let price = close_of(candles, &closes, now.time);
                if before.value.at_most(slow_before) && slow_now.below(now.value) {
                    emit(
                        &mut signals,
                        now.time,
                        SignalType::EmaCrossoverBuy,
                        price,
                        whole(0),
                        "ema_crossover",
                    );
                }
                if slow_before.at_most(before.value) && now.value.below(slow_now) {
                    emit(
                        &mut signals,
                        now.time,
                        SignalType::EmaCrossoverSell,
                        price,
                        whole(0),
                        "ema_crossover",
                    );
                }
            }
        }
        i += 1;
    }
    signals
}

/// The signals with those of one stochastic point: where the index has a
/// point at its time, a buy where %K is under twenty and the index under
/// thirty, a sell where %K is over eighty and the index over seventy.
pub open spec fn stoch_rsi_step<V: Scalar>(
    signals: Seq<SignalView<V>>,
    point: StochasticPoint<V>,
    rsi: Seq<RsiPoint<V>>,
    candles: Seq<Candle<V>>,
) -> Seq<SignalView<V>> {
    match position(times_of(rsi), point.time) {
        Some(r) => {
            let strength = rsi[r as int].value;
            let found = |signal_type: SignalType|
                SignalView {
                    time: point.time,
                    signal_type,
                    price: close_at(candles, point.time),
                    rsi: strength,
                    source: "stoch_rsi"@,
                };
            with_signal(
                with_signal(
                    signals,
                    point.k.below(whole::<V>(20)) && strength.below(whole::<V>(30)),
                    found(SignalType::StochRsiBuy),
                ),
                whole::<V>(80).below(point.k) && whole::<V>(70).below(strength),
                found(SignalType::StochRsiSell),
            )
        },
        None => signals,
    }
}

/// The combined signals of the first `n` stochastic points.
pub open spec fn stoch_rsi_signals<V: Scalar>(
    stoch: Seq<StochasticPoint<V>>,
    rsi: Seq<RsiPoint<V>>,
    candles: Seq<Candle<V>>,
    n: int,
) -> Seq<SignalView<V>>
    decreases n,
{
    if n <= 0 {
        Seq::empty()
    } else {
        stoch_rsi_step(stoch_rsi_signals(stoch, rsi, candles, n - 1), stoch[n - 1], rsi, candles)
    }
}

/// The times at which the stochastic oscillator and the relative strength
/// index agree on oversold or overbought.
pub fn detect_stoch_rsi_combined<V: Scalar>(
    stoch: &StochasticResult<V>,
    rsi: &[RsiPoint<V>],
    candles: &[Candle<V>],
) -> (r: Vec<SignalPoint<V>>)
    ensures
        signal_views(r@) == stoch_rsi_signals(stoch.data@, rsi@, candles@, stoch.data@.len() as int),
        times_within(signal_views(r@), times_of(stoch.data@)),
{
    let strengths = TimeIndex::build(rsi);
    let closes = TimeIndex::build(candles);
    let mut signals: Vec<SignalPoint<V>> = Vec::new();
    let n = stoch.data.len();
    assert(signal_views(signals@) =~= Seq::<SignalView<V>>::empty());
    let mut i: usize = 0;
    while i < n
        invariant
            times_within(signal_views(signals@), times_of(stoch.data@)),
            i <= n,
            n == stoch.data@.len(),
            strengths@ == times_of(rsi@),
            closes@ == times_of(candles@),
            signal_views(signals@) == stoch_rsi_signals(stoch.data@, rsi@, candles@, i as int),
        decreases n - i,
    {
        let point = stoch.data[i];
        assert(times_of(stoch.data@)[i as int] == point.time);
        if let Some(r) = strengths.find(point.time) {
            let strength = rsi[r].value;
            let price = close_of(candles, &closes, point.time);
            if point.k.below(whole(20)) && strength.below(whole(30)) {
                emit(&mut signals, point.time, SignalType::StochRsiBuy, price, strength, "stoch_rsi");
            }
            if whole::<V>(80).below(point.k) && whole::<V>(70).below(strength) {
                emit(&mut signals, point.time, SignalType::StochRsiSell, price, strength, "stoch_rsi");
            }
        }
        i += 1;
    }
    signals
}

/// How many points back the on-balance volume is compared with.
pub const OBV_LOOKBACK: usize = 10;

/// The signals with those of one pair of neighbouring money flow points:
/// where the flow turns positive and the on-balance volume at that time
/// is above what it was ten points before, a buy; where the flow turns
/// negative and the volume is below, a sell.
pub open spec fn cmf_obv_step<V: Scalar>(
    signals: Seq<SignalView<V>>,
    before: CmfPoint<V>,
    now: CmfPoint<V>,
    obv: Seq<ObvPoint<V>>,
    candles: Seq<Candle<V>>,
) -> Seq<SignalView<V>> {
    let turned_positive = before.value.at_most(whole::<V>(0)) && whole::<V>(0).below(now.value);
    let turned_negative = whole::<V>(0).at_most(before.value) && now.value.below(whole::<V>(0));
    match position(times_of(obv), now.time) {
        Some(at) => if at >= OBV_LOOKBACK {
            let balance = obv[at as int].value;
            let past = obv[at - OBV_LOOKBACK].value;
            let found = |signal_type: SignalType|
                SignalView {
                    time: now.time,
                    signal_type,
                    price: close_at(candles, now.time),
                    rsi: whole::<V>(0),
                    source: "cmf_obv"@,
                };
            with_signal(
                with_signal(
                    signals,
                    turned_positive && past.below(balance),
                    found(SignalType::CmfObvBuy),
                ),
                turned_negative && balance.below(past),
                found(SignalType::CmfObvSell),
            )
        } else {
            signals
        },
        None => signals,
    }
}

/// The money flow signals of the first `n` points.
pub open spec fn cmf_obv_signals<V: Scalar>(
    cmf: Seq<CmfPoint<V>>,
    obv: Seq<ObvPoint<V>>,
    candles: Seq<Candle<V>>,
    n: int,
) -> Seq<SignalView<V>>
    decreases n,
{
    if n <= 1 {
        Seq::empty()
    } else {
        cmf_obv_step(cmf_obv_signals(cmf, obv, candles, n - 1), cmf[n - 2], cmf[n - 1], obv, candles)
    }
}

/// The turns of the Chaikin money flow that the on-balance volume
/// confirms.
pub fn detect_cmf_obv<V: Scalar>(cmf: &CmfResult<V>, obv: &ObvResult<V>, candles: &[Candle<V>]) -> (r:
    Vec<SignalPoint<V>>)
    ensures
        signal_views(r@) == cmf_obv_signals(cmf.data@, obv.data@, candles@, cmf.data@.len() as int),
        times_within(signal_views(r@), times_of(cmf.data@)),
{
    let balances = TimeIndex::build(obv.data.as_slice());
    let closes = TimeIndex::build(candles);
    let mut signals: Vec<SignalPoint<V>> = Vec::new();
    let n = cmf.data.len();
    assert(signal_views(signals@) =~= Seq::<SignalView<V>>::empty());
    let mut i: usize = 1;
    while i < n
        invariant
            times_within(signal_views(signals@), times_of(cmf.data@)),
            1 <= i,
            i <= n || (n == 0 && i == 1),
            n == cmf.data@.len(),
            balances@ == times_of(obv.data@),
            closes@ == times_of(candles@),
            signal_views(signals@) == cmf_obv_signals(cmf.data@, obv.data@, candles@, i as int),
        decreases n - i,
    {
        let before = cmf.data[i - 1];
        let now = cmf.data[i];
        assert(times_of(cmf.data@)[i as int] == now.time);
        let turned_positive = before.value.at_most(whole(0)) && whole::<V>(0).below(now.value);
        let turned_negative = whole::<V>(0).at_most(before.value) && now.value.below(whole(0));
        if turned_positive || turned_negative {
            if let Some(at) = balances.find(now.time) {
                if at >= OBV_LOOKBACK {
                    let balance = obv.data[at].value;
                    let past = obv.data[at - OBV_LOOKBACK].value;
                    let price = close_of(candles, &closes, now.time);
                    if turned_positive && past.below(balance) {
                        emit(&mut signals, now.time, SignalType::CmfObvBuy, price, whole(0), "cmf_obv");
                    }
                    if turned_negative && balance.below(past) {
                        emit(
                            &mut signals,
                            now.time,
                            SignalType::CmfObvSell,
                            price,
                            whole(0),
                            "cmf_obv",
                        );
                    }
                }
            }
        }
        i += 1;
    }
    signals
}

/// What the scan for squeezes knows after a point of the bands: the
/// signals so far, and whether the last point that the channel has a
/// point for was in a squeeze.
pub struct SqueezeScan<V> {
    pub signals: Seq<SignalView<V>>,
    pub squeezed: bool,
}

/// The MACD histogram at time `t`, or zero where MACD has no point there.
pub open spec fn histogram_at<V: Scalar>(macd: Seq<MacdPoint<V>>, t: i64) -> V {
    match position(times_of(macd), t) {
        Some(m) => macd[m as int].histogram,
        None => whole::<V>(0),
    }
}

/// The scan after the `i`-th point of the bands. The bands are in a
/// squeeze where they lie within the Keltner channel. Where a squeeze
/// ends, a histogram above zero gives a buy and one below zero a sell. A
/// point without a point of the channel at its time changes nothing.
pub open spec fn squeeze_step<V: Scalar>(
    scan: SqueezeScan<V>,
    bands: BollingerBandsPoint<V>,
    i: int,
    keltner: Seq<KeltnerPoint<V>>,
    macd: Seq<MacdPoint<V>>,
    candles: Seq<Candle<V>>,
) -> SqueezeScan<V> {
    match position(times_of(keltner), bands.time) {
        Some(k) => {
            let channel = keltner[k as int];
            let squeezed = bands.upper.below(channel.upper) && channel.lower.below(bands.lower);
            let released = i > 0 && scan.squeezed && !squeezed;
            let histogram = histogram_at(macd, bands.time);
            let found = |signal_type: SignalType|
                SignalView {
                    time: bands.time,
                    signal_type,
                    price: close_at(candles, bands.time),
                    rsi: whole::<V>(0),
                    source: "ttm_squeeze"@,
                };
            SqueezeScan {
                signals: with_signal(
                    with_signal(
                        scan.signals,
                        released && whole::<V>(0).below(histogram),
                        found(SignalType::TtmSqueezeBuy),
                    ),
                    released && !whole::<V>(0).below(histogram) && histogram.below(whole::<V>(0)),
                    found(SignalType::TtmSqueezeSell),
                ),
                squeezed,
            }
        },
        None => scan,
    }
}

/// The scan after the first `n` points of the bands.
pub open spec fn squeeze_scan<V: Scalar>(
    bb: Seq<BollingerBandsPoint<V>>,
    keltner: Seq<KeltnerPoint<V>>,
    macd: Seq<MacdPoint<V>>,
    candles: Seq<Candle<V>>,
    n: int,
) -> SqueezeScan<V>
    decreases n,
{
    if n <= 0 {
        SqueezeScan { signals: Seq::empty(), squeezed: false }
    } else {
        squeeze_step(
            squeeze_scan(bb, keltner, macd, candles, n - 1),
            bb[n - 1],
            n - 1,
            keltner,
            macd,
            candles,
        )
    }
}

/// The ends of squeezes of the Bollinger bands within the Keltner
/// channel, each with the direction of the MACD histogram.
pub fn detect_ttm_squeeze<V: Scalar>(
    bb: &[BollingerBandsPoint<V>],
    keltner: &KeltnerResult<V>,
    macd: &MacdResult<V>,
    candles: &[Candle<V>],
) -> (r: Vec<SignalPoint<V>>)
    ensures
        signal_views(r@) == squeeze_scan(
            bb@,
            keltner.data@,
            macd.data@,
            candles@,
            bb@.len() as int,
        ).signals,
        times_within(signal_views(r@), times_of(bb@)),
{
    let channels = TimeIndex::build(keltner.data.as_slice());
    let histograms = TimeIndex::build(macd.data.as_slice());
    let closes = TimeIndex::build(candles);
    let mut signals: Vec<SignalPoint<V>> = Vec::new();
    let mut squeezed = false;
    let n = bb.len();
    assert(signal_views(signals@) =~= Seq::<SignalView<V>>::empty());
    let mut i: usize = 0;
    while i < n
        invariant
            times_within(signal_views(signals@), times_of(bb@)),
            i <= n,
            n == bb@.len(),
            channels@ == times_of(keltner.data@),
            histograms@ == times_of(macd.data@),
            closes@ == times_of(candles@),
            (SqueezeScan { signals: signal_views(signals@), squeezed }) == squeeze_scan(
                bb@,
                keltner.data@,
                macd.data@,
                candles@,
                i as int,
            ),
        decreases n - i,
    {
        let bands = bb[i];
        assert(times_of(bb@)[i as int] == bands.time);
        if let Some(k) = channels.find(bands.time) {
            let channel = keltner.data[k];
            let now_squeezed = bands.upper.below(channel.upper) && channel.lower.below(bands.lower);
            if i > 0 && squeezed && !now_squeezed {
                let histogram = match histograms.find(bands.time) {
                    Some(m) => macd.data[m].histogram,
                    None => whole(0),
                };
                let price = close_of(candles, &closes, bands.time);
                if whole::<V>(0).below(histogram) {
                    emit(
                        &mut signals,
                        bands.time,
                        SignalType::TtmSqueezeBuy,
                        price,
                        whole(0),
                        "ttm_squeeze",
                    );
                } else if histogram.below(whole(0)) {
                    emit(
                        &mut signals,
                        bands.time,
                        SignalType::TtmSqueezeSell,
                        price,
                        whole(0),
                        "ttm_squeeze",
                    );
                }
            }
            squeezed = now_squeezed;
        }
        i += 1;
    }
    signals
}

/// Over how many candles before a candle its volume is averaged.
pub const VOLUME_WINDOW: usize = 20;

/// The signals with those of candle `i`, from the twenty-first on: where
/// the average price has a point at the candle's time and the candle's
/// volume is above one and a half times the mean volume of the twenty
/// candles before, a buy where the close crosses above the average
/// price, a sell where it crosses below. The candle before is held
/// against the average price at its own time, or at this candle's where
/// there is none.
pub open spec fn vwap_breakout_step<V: Scalar>(
    signals: Seq<SignalView<V>>,
    vwap: Seq<VwapPoint<V>>,
    candles: Seq<Candle<V>>,
    i: int,
) -> Seq<SignalView<V>> {
    let c = candles[i];
    let before = candles[i - 1];
    let mean_volume = sum_range(volumes_of(candles), i - VOLUME_WINDOW, i).over(whole::<V>(20));
    match position(times_of(vwap), c.time) {
        Some(v) => {
            let average = vwap[v as int].value;
            let average_before = match position(times_of(vwap), before.time) {
                Some(p) => vwap[p as int].value,
                None => average,
            };
            let surge = mean_volume.times(V::from_ratio(3, 2)).below(c.volume);
            let found = |signal_type: SignalType|
                SignalView {
                    time: c.time,
                    signal_type,
                    price: c.close,
                    rsi: whole::<V>(0),
                    source: "vwap_breakout"@,
                };
            with_signal(
                with_signal(
                    signals,
                    surge && before.close.at_most(average_before) && average.below(c.close),
                    found(SignalType::VwapBreakoutBuy),
                ),
                surge && average_before.at_most(before.close) && c.close.below(average),
                found(SignalType::VwapBreakoutSell),
            )
        },
        None => signals,
    }
}

/// The breakout signals of the first `n` candles.
pub open spec fn vwap_breakout_signals<V: Scalar>(
    vwap: Seq<VwapPoint<V>>,
    candles: Seq<Candle<V>>,
    n: int,
) -> Seq<SignalView<V>>
    decreases n,
{
    if n <= VOLUME_WINDOW {
        Seq::empty()
    } else {
        vwap_breakout_step(vwap_breakout_signals(vwap, candles, n - 1), vwap, candles, n - 1)
    }
}

fn volumes<V: Scalar>(candles: &[Candle<V>]) -> (r: Vec<V>)
    ensures
        r@ == volumes_of(candles@),
{
    let mut r: Vec<V> = Vec::with_capacity(candles.len());
    let mut i: usize = 0;
    while i < candles.len()
        invariant
            i <= candles@.len(),
            r@.len() == i,
            forall|k: int| 0 <= k < i ==> r@[k] == candles@[k].volume,
        decreases candles@.len() - i,
    {
        r.push(candles[i].volume);
        i += 1;
    }
    assert(r@ =~= volumes_of(candles@));
    r
}

/// The crossings of the close and the volume-weighted average price on a
/// surge of volume.
pub fn detect_vwap_breakout<V: Scalar>(vwap: &VwapResult<V>, candles: &[Candle<V>]) -> (r: Vec<
    SignalPoint<V>,
>)
    ensures
        signal_views(r@) == vwap_breakout_signals(vwap.data@, candles@, candles@.len() as int),
        times_within(signal_views(r@), times_of(candles@)),
{
    let mut signals: Vec<SignalPoint<V>> = Vec::new();
    let n = candles.len();
    assert(signal_views(signals@) =~= Seq::<SignalView<V>>::empty());
    if n <= VOLUME_WINDOW {
        return signals;
    }
    let averages = TimeIndex::build(vwap.data.as_slice());
    let traded = volumes(candles);
    let mut i: usize = VOLUME_WINDOW;
    while i < n
        invariant
            times_within(signal_views(signals@), times_of(candles@)),
            VOLUME_WINDOW <= i <= n,
            n == candles@.len(),
            averages@ == times_of(vwap.data@),
            traded@ == volumes_of(candles@),
            signal_views(signals@) == vwap_breakout_signals(vwap.data@, candles@, i as int),
        decreases n - i,
    {
        let c = candles[i];
        assert(times_of(candles@)[i as int] == c.time);
        let before = candles[i - 1];
        let mean_volume = sum_of(traded.as_slice(), i - VOLUME_WINDOW, i).over(whole(20));
        if let Some(v) = averages.find(c.time) {
            let average = vwap.data[v].value;
            if mean_volume.times(V::from_ratio(3, 2)).below(c.volume) {
                let average_before = match averages.find(before.time) {
                    Some(p) => vwap.data[p].value,
                    None => average,
                };
                if before.close.at_most(average_before) && average.below(c.close) {
                    emit(
                        &mut signals,
                        c.time,
                        SignalType::VwapBreakoutBuy,
                        c.close,
                        whole(0),
                        "vwap_breakout",
                    );
                }
                if average_before.at_most(before.close) && c.close.below(average) {
                    emit(
                        &mut signals,
                        c.time,
                        SignalType::VwapBreakoutSell,
                        c.close,
                        whole(0),
                        "vwap_breakout",
                    );
                }
            }
        }
        i += 1;
    }
    signals
}

/// The signals with those of one pair of neighbouring points of the stop:
/// where both have a candle at their time, a buy where the stop was above
/// the close and no longer is, a sell where it was not and now is.
pub open spec fn sar_reversal_step<V: Scalar>(
    signals: Seq<SignalView<V>>,
    before: ParabolicSarPoint<V>,
    now: ParabolicSarPoint<V>,
    candles: Seq<Candle<V>>,
) -> Seq<SignalView<V>> {
    match (position(times_of(candles), before.time), position(times_of(candles), now.time)) {
        (Some(b), Some(n)) => {
            let was_above = candles[b as int].close.below(before.value);
            let is_above = candles[n as int].close.below(now.value);
            let found = |signal_type: SignalType|
                SignalView {
                    time: now.time,
                    signal_type,
                    price: candles[n as int].close,
                    rsi: whole::<V>(0),
                    source: "parabolic_sar"@,
                };
            with_signal(
                with_signal(signals, was_above && !is_above, found(SignalType::ParabolicSarBuy)),
                !was_above && is_above,
                found(SignalType::ParabolicSarSell),
            )
        },
        _ => signals,
    }
}

/// The reversal signals of the first `n` points of the stop.
pub open spec fn sar_reversal_signals<V: Scalar>(
    sar: Seq<ParabolicSarPoint<V>>,
    candles: Seq<Candle<V>>,
    n: int,
) -> Seq<SignalView<V>>
    decreases n,
{
    if n <= 1 {
        Seq::empty()
    } else {
        sar_reversal_step(sar_reversal_signals(sar, candles, n - 1), sar[n - 2], sar[n - 1], candles)
    }
}

/// The crossings of the parabolic stop and the close.
pub fn detect_parabolic_sar_reversal<V: Scalar>(
    sar: &ParabolicSarResult<V>,
    candles: &[Candle<V>],
) -> (r: Vec<SignalPoint<V>>)
    ensures
        signal_views(r@) == sar_reversal_signals(sar.data@, candles@, sar.data@.len() as int),
        times_within(signal_views(r@), times_of(sar.data@)),
{
    let closes = TimeIndex::build(candles);
    let mut signals: Vec<SignalPoint<V>> = Vec::new();
    let n = sar.data.len();
    assert(signal_views(signals@) =~= Seq::<SignalView<V>>::empty());
    let mut i: usize = 1;
    while i < n
        invariant
            times_within(signal_views(signals@), times_of(sar.data@)),
            1 <= i,
            i <= n || (n == 0 && i == 1),
            n == sar.data@.len(),
            closes@ == times_of(candles@),
            signal_views(signals@) == sar_reversal_signals(sar.data@, candles@, i as int),
        decreases n - i,
    {
        let before = sar.data[i - 1];
        let now = sar.data[i];
        assert(times_of(sar.data@)[i as int] == now.time);
        if let Some(b) = closes.find(before.time) {
            if let Some(at) = closes.find(now.time) {
                let was_above = candles[b].close.below(before.value);
                let is_above = candles[at].close.below(now.value);
                let price = candles[at].close;
                if was_above && !is_above {
                    emit(
                        &mut signals,
                        now.time,
                        SignalType::ParabolicSarBuy,
                        price,
                        whole(0),
                        "parabolic_sar",
                    );
                }
                if !was_above && is_above {
                    emit(
                        &mut signals,
                        now.time,
                        SignalType::ParabolicSarSell,
                        price,
                        whole(0),
                        "parabolic_sar",
                    );
                }
            }
        }
        i += 1;
    }
    signals
}

/// The signals with those of one pair of neighbouring MACD points: where
/// both have a candle at their time, a buy where the histogram turns
/// positive on a rising close, a sell where it turns negative on a
/// falling close.
pub open spec fn macd_hist_step<V: Scalar>(
    signals: Seq<SignalView<V>>,
    before: MacdPoint<V>,
    now: MacdPoint<V>,
    candles: Seq<Candle<V>>,
) -> Seq<SignalView<V>> {
    match (position(times_of(candles), now.time), position(times_of(candles), before.time)) {
        (Some(n), Some(b)) => {
            let close = candles[n as int].close;
            let close_before = candles[b as int].close;
            let found = |signal_type: SignalType|
                SignalView {
                    time: now.time,
                    signal_type,
                    price: close,
                    rsi: whole::<V>(0),
                    source: "macd_hist"@,
                };
            with_signal(
                with_signal(
                    signals,
                    before.histogram.at_most(whole::<V>(0)) && whole::<V>(0).below(now.histogram)
                        && close_before.below(close),
                    found(SignalType::MacdHistReversalBuy),
                ),
                whole::<V>(0).at_most(before.histogram) && now.histogram.below(whole::<V>(0))
                    && close.below(close_before),
                found(SignalType::MacdHistReversalSell),
            )
        },
        _ => signals,
    }
}

/// The histogram signals of the first `n` MACD points.
pub open spec fn macd_hist_signals<V: Scalar>(
    macd: Seq<MacdPoint<V>>,
    candles: Seq<Candle<V>>,
    n: int,
) -> Seq<SignalView<V>>
    decreases n,
{
    if n <= 1 {
        Seq::empty()
    } else {
        macd_hist_step(macd_hist_signals(macd, candles, n - 1), macd[n - 2], macd[n - 1], candles)
    }
}

/// The changes of sign of the MACD histogram that the close confirms.
pub fn detect_macd_hist_reversal<V: Scalar>(macd: &MacdResult<V>, candles: &[Candle<V>]) -> (r: Vec<
    SignalPoint<V>,
>)
    ensures
        signal_views(r@) == macd_hist_signals(macd.data@, candles@, macd.data@.len() as int),
        times_within(signal_views(r@), times_of(macd.data@)),
{
    let closes = TimeIndex::build(candles);
    let mut signals: Vec<SignalPoint<V>> = Vec::new();
    let n = macd.data.len();
    assert(signal_views(signals@) =~= Seq::<SignalView<V>>::empty());
    let mut i: usize = 1;
    while i < n
        invariant
            times_within(signal_views(signals@), times_of(macd.data@)),
            1 <= i,
            i <= n || (n == 0 && i == 1),
            n == macd.data@.len(),
            closes@ == times_of(candles@),
            signal_views(signals@) == macd_hist_signals(macd.data@, candles@, i as int),
        decreases n - i,
    {
        let before = macd.data[i - 1];
        let now = macd.data[i];
        assert(times_of(macd.data@)[i as int] == now.time);
        if let Some(at) = closes.find(now.time) {
            if let Some(b) = closes.find(before.time) {
                let close = candles[at].close;
                let close_before = candles[b].close;
                if before.histogram.at_most(whole(0)) && whole::<V>(0).below(now.histogram)
                    && close_before.below(close) {
                    emit(
                        &mut signals,
                        now.time,
                        SignalType::MacdHistReversalBuy,
                        close,
                        whole(0),
                        "macd_hist",
                    );
                }
                if whole::<V>(0).at_most(before.histogram) && now.histogram.below(whole(0))
                    && close.below(close_before) {
                    emit(
                        &mut signals,
                        now.time,
                        SignalType::MacdHistReversalSell,
                        close,
                        whole(0),
                        "macd_hist",
                    );
                }
            }
        }
        i += 1;
    }
    signals
}

/// The relative strength index at time `t`, or fifty where it has no
/// point there.
pub open spec fn strength_at<V: Scalar>(rsi: Seq<RsiPoint<V>>, t: i64) -> V {
    match position(times_of(rsi), t) {
        Some(r) => rsi[r as int].value,
        None => whole::<V>(50),
    }
}

/// The relative strength index at time `t`, or fifty where it has no
/// point there.
pub fn strength_of<V: Scalar>(rsi: &[RsiPoint<V>], index: &TimeIndex, t: i64) -> (r: V)
    requires
        index@ == times_of(rsi@),
    ensures
        r == strength_at(rsi@, t),
{
    match index.find(t) {
        Some(i) => rsi[i].value,
        None => whole(50),
    }
}

/// The signals with those of one candle with a range above epsilon: the
/// internal bar strength is where the close lies in the range, from zero
/// to one. A strength under a fifth with an index under thirty-five is a
/// buy, one over four fifths with an index over sixty-five a sell.
pub open spec fn ibs_step<V: Scalar>(
    signals: Seq<SignalView<V>>,
    rsi: Seq<RsiPoint<V>>,
    c: Candle<V>,
) -> Seq<SignalView<V>> {
    let range = c.high.minus(c.low);
    let bar_strength = c.close.minus(c.low).over(range);
    let strength = strength_at(rsi, c.time);
    let found = |signal_type: SignalType|
        SignalView {
            time: c.time,
            signal_type,
            price: c.close,
            rsi: strength,
            source: "ibs_mean_rev"@,
        };
    if range.at_most(V::epsilon()) {
        signals
    } else {
        with_signal(
            with_signal(
                signals,
                bar_strength.below(V::from_ratio(2, 10)) && strength.below(whole::<V>(35)),
                found(SignalType::IbsMeanRevBuy),
            ),
            V::from_ratio(8, 10).below(bar_strength) && whole::<V>(65).below(strength),
            found(SignalType::IbsMeanRevSell),
        )
    }
}

/// The bar strength signals of the first `n` candles.
pub open spec fn ibs_signals<V: Scalar>(rsi: Seq<RsiPoint<V>>, candles: Seq<Candle<V>>, n: int) -> Seq<
    SignalView<V>,
>
    decreases n,
{
    if n <= 0 {
        Seq::empty()
    } else {
        ibs_step(ibs_signals(rsi, candles, n - 1), rsi, candles[n - 1])
    }
}

/// The closes near an end of their candle's range that the relative
/// strength index confirms.
pub fn detect_ibs_mean_reversion<V: Scalar>(rsi: &[RsiPoint<V>], candles: &[Candle<V>]) -> (r: Vec<
    SignalPoint<V>,
>)
    ensures
        signal_views(r@) == ibs_signals(rsi@, candles@, candles@.len() as int),
        times_within(signal_views(r@), times_of(candles@)),
{
    let strengths = TimeIndex::build(rsi);
    let mut signals: Vec<SignalPoint<V>> = Vec::new();
    let n = candles.len();
    assert(signal_views(signals@) =~= Seq::<SignalView<V>>::empty());
    let mut i: usize = 0;
    while i < n
        invariant
            times_within(signal_views(signals@), times_of(candles@)),
            i <= n,
            n == candles@.len(),
            strengths@ == times_of(rsi@),
            signal_views(signals@) == ibs_signals(rsi@, candles@, i as int),
        decreases n - i,
    {
        let c = candles[i];
        assert(times_of(candles@)[i as int] == c.time);
        let range = c.high.minus(c.low);
        if !range.at_most(V::epsilon()) {
            let bar_strength = c.close.minus(c.low).over(range);
            let strength = strength_of(rsi, &strengths, c.time);
            if bar_strength.below(V::from_ratio(2, 10)) && strength.below(whole(35)) {
                emit(
                    &mut signals,
                    c.time,
                    SignalType::IbsMeanRevBuy,
                    c.close,
                    strength,
                    "ibs_mean_rev",
                );
            }
            if V::from_ratio(8, 10).below(bar_strength) && whole::<V>(65).below(strength) {
                emit(
                    &mut signals,
                    c.time,
                    SignalType::IbsMeanRevSell,
                    c.close,
                    strength,
                    "ibs_mean_rev",
                );
            }
        }
        i += 1;
    }
    signals
}

/// Whether, `j` candles to either side of candle `i`, both lows are at
/// least the low of candle `i`.
pub open spec fn low_holds_at<V: Scalar>(candles: Seq<Candle<V>>, i: int, j: int) -> bool {
    candles[i].low.at_most(candles[i - j].low) && candles[i].low.at_most(candles[i + j].low)
}

/// Whether, `j` candles to either side of candle `i`, both highs are at
/// most the high of candle `i`.
pub open spec fn high_holds_at<V: Scalar>(candles: Seq<Candle<V>>, i: int, j: int) -> bool {
    candles[i - j].high.at_most(candles[i].high) && candles[i + j].high.at_most(candles[i].high)
}

/// Whether the low of candle `i` is the lowest of the `reach` candles on
/// either side.
pub open spec fn is_low_pivot<V: Scalar>(candles: Seq<Candle<V>>, i: int, reach: int) -> bool {
    forall|j: int| 1 <= j <= reach ==> #[trigger] low_holds_at(candles, i, j)
}

/// Whether the high of candle `i` is the highest of the `reach` candles
/// on either side.
pub open spec fn is_high_pivot<V: Scalar>(candles: Seq<Candle<V>>, i: int, reach: int) -> bool {
    forall|j: int| 1 <= j <= reach ==> #[trigger] high_holds_at(candles, i, j)
}

fn low_pivot<V: Scalar>(candles: &[Candle<V>], i: usize, reach: usize) -> (r: bool)
    requires
        reach <= i,
        i + reach < candles@.len(),
    ensures
        r == is_low_pivot(candles@, i as int, reach as int),
{
    let n = candles.len();
    let mut j: usize = 1;
    while j <= reach
        invariant
            1 <= j <= reach + 1,
            reach <= i,
            i + reach < n,
            n == candles@.len(),
            forall|m: int| 1 <= m < j ==> #[trigger] low_holds_at(candles@, i as int, m),
        decreases reach + 1 - j,
    {
        if !(candles[i].low.at_most(candles[i - j].low) && candles[i].low.at_most(
            candles[i + j].low,
        )) {
            assert(!low_holds_at(candles@, i as int, j as int));
            return false;
        }
        j += 1;
    }
    true
}

fn high_pivot<V: Scalar>(candles: &[Candle<V>], i: usize, reach: usize) -> (r: bool)
    requires
        reach <= i,
        i + reach < candles@.len(),
    ensures
        r == is_high_pivot(candles@, i as int, reach as int),
{
    let n = candles.len();
    let mut j: usize = 1;
    while j <= reach
        invariant
            1 <= j <= reach + 1,
            reach <= i,
            i + reach < n,
            n == candles@.len(),
            forall|m: int| 1 <= m < j ==> #[trigger] high_holds_at(candles@, i as int, m),
        decreases reach + 1 - j,
    {
        if !(candles[i - j].high.at_most(candles[i].high) && candles[i + j].high.at_most(
            candles[i].high,
        )) {
            assert(!high_holds_at(candles@, i as int, j as int));
            return false;
        }
        j += 1;
    }
    true
}

/// What the scan for divergences knows after a candle: the signals so
/// far, and the price and the index of the last pivot.
pub struct DivergenceScan<V> {
    pub signals: Seq<SignalView<V>>,
    pub last: Option<(V, V)>,
}

/// The scan of the lows of the candles before `n`: a low pivot below the
/// last one, with an index above the last one's, is a bullish
/// divergence.
pub open spec fn low_divergences<V: Scalar>(
    rsi: Seq<RsiPoint<V>>,
    candles: Seq<Candle<V>>,
    reach: usize,
    n: int,
) -> DivergenceScan<V>
    decreases n,
{
    if n <= reach {
        DivergenceScan { signals: Seq::empty(), last: None }
    } else {
        let scan = low_divergences(rsi, candles, reach, n - 1);
        let c = candles[n - 1];
        if is_low_pivot(candles, n - 1, reach as int) {
            let strength = strength_at(rsi, c.time);
            DivergenceScan {
                signals: match scan.last {
                    Some(last) => with_signal(
                        scan.signals,
                        c.low.below(last.0) && last.1.below(strength),
                        SignalView {
                            time: c.time,
                            signal_type: SignalType::RsiDivergenceBuy,
                            price: c.close,
                            rsi: strength,
                            source: "rsi_divergence"@,
                        },
                    ),
                    None => scan.signals,
                },
                last: Some((c.low, strength)),
            }
        } else {
            scan
        }
    }
}

/// The scan of the highs of the candles before `n`, its signals put
/// behind `seed`: a high pivot above the last one, with an index below
/// the last one's, is a bearish divergence.
pub open spec fn high_divergences<V: Scalar>(
    seed: Seq<SignalView<V>>,
    rsi: Seq<RsiPoint<V>>,
    candles: Seq<Candle<V>>,
    reach: usize,
    n: int,
) -> DivergenceScan<V>
    decreases n,
{
    if n <= reach {
        DivergenceScan { signals: seed, last: None }
    } else {
        let scan = high_divergences(seed, rsi, candles, reach, n - 1);
        let c = candles[n - 1];
        if is_high_pivot(candles, n - 1, reach as int) {
            let strength = strength_at(rsi, c.time);
            DivergenceScan {
                signals: match scan.last {
                    Some(last) => with_signal(
                        scan.signals,
                        last.0.below(c.high) && strength.below(last.1),
                        SignalView {
                            time: c.time,
                            signal_type: SignalType::RsiDivergenceSell,
                            price: c.close,
                            rsi: strength,
                            source: "rsi_divergence"@,
                        },
                    ),
                    None => scan.signals,
                },
                last: Some((c.high, strength)),
            }
        } else {
            scan
        }
    }
}

/// The divergences of price and index: the bullish ones, in the order of
/// their candles, then the bearish ones. There are none where the
/// candles or the points of the index are fewer than
/// `2 * swing_length + 1`.
pub open spec fn divergence_signals<V: Scalar>(
    rsi: Seq<RsiPoint<V>>,
    candles: Seq<Candle<V>>,
    swing_length: usize,
) -> Seq<SignalView<V>> {
    if candles.len() < 2 * swing_length + 1 || rsi.len() < 2 * swing_length + 1 {
        Seq::empty()
    } else {
        high_divergences(
            low_divergences(rsi, candles, swing_length, candles.len() - swing_length).signals,
            rsi,
            candles,
            swing_length,
            candles.len() - swing_length,
        ).signals
    }
}

/// The divergences of the lows and highs of the price from the relative
/// strength index at those candles.
pub fn detect_rsi_divergence<V: Scalar>(
    rsi: &[RsiPoint<V>],
    candles: &[Candle<V>],
    swing_length: usize,
) -> (r: Vec<SignalPoint<V>>)
    ensures
        signal_views(r@) == divergence_signals(rsi@, candles@, swing_length),
        times_within(signal_views(r@), times_of(candles@)),
{
    let mut signals: Vec<SignalPoint<V>> = Vec::new();
    let n = candles.len();
    let m = rsi.len();
    assert(signal_views(signals@) =~= Seq::<SignalView<V>>::empty());
    if n == 0 || m == 0 || swing_length > (n - 1) / 2 || swing_length > (m - 1) / 2 {
        return signals;
    }
    let strengths = TimeIndex::build(rsi);
    let end = n - swing_length;
    let mut last: Option<(V, V)> = None;
    let mut i: usize = swing_length;
    while i < end
        invariant
            times_within(signal_views(signals@), times_of(candles@)),
            swing_length <= i <= end,
            end == n - swing_length,
            n == candles@.len(),
            2 * swing_length + 1 <= n,
            strengths@ == times_of(rsi@),
            (DivergenceScan { signals: signal_views(signals@), last }) == low_divergences(
                rsi@,
                candles@,
                swing_length,
                i as int,
            ),
        decreases end - i,
    {
        if low_pivot(candles, i, swing_length) {
            let c = candles[i];
            assert(times_of(candles@)[i as int] == c.time);
            let strength = strength_of(rsi, &strengths, c.time);
            if let Some(before) = last {
                if c.low.below(before.0) && before.1.below(strength) {
                    emit(
                        &mut signals,
                        c.time,
                        SignalType::RsiDivergenceBuy,
                        c.close,
                        strength,
                        "rsi_divergence",
                    );
                }
            }
            last = Some((c.low, strength));
        }
        i += 1;
    }
    let ghost seed = signal_views(signals@);
    let mut last: Option<(V, V)> = None;
    let mut i: usize = swing_length;
    while i < end
        invariant
            times_within(signal_views(signals@), times_of(candles@)),
            swing_length <= i <= end,
            end == n - swing_length,
            n == candles@.len(),
            2 * swing_length + 1 <= n,
            strengths@ == times_of(rsi@),
            (DivergenceScan { signals: signal_views(signals@), last }) == high_divergences(
                seed,
                rsi@,
                candles@,
                swing_length,
                i as int,
            ),
        decreases end - i,
    {
        if high_pivot(candles, i, swing_length) {
            let c = candles[i];
            assert(times_of(candles@)[i as int] == c.time);
            let strength = strength_of(rsi, &strengths, c.time);
            if let Some(before) = last {
                if before.0.below(c.high) && strength.below(before.1) {
                    emit(
                        &mut signals,
                        c.time,
                        SignalType::RsiDivergenceSell,
                        c.close,
                        strength,
                        "rsi_divergence",
                    );
                }
            }
            last = Some((c.high, strength));
        }
        i += 1;
    }
    signals
}

} // verus!
