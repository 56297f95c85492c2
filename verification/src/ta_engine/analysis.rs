use crate::models::candle::Candle;
use crate::models::indicator::{
    AdxResult, BollingerBandsPoint, CmfResult, KeltnerResult, MaPoint, MacdResult,
    MovingAverageResult, ObvResult, ParabolicSarResult, RsiPoint, StochasticResult,
    SupertrendResult, VwapResult,
};
use crate::models::params::AnalysisParams;
use crate::models::response::AnalysisResponse;
use crate::models::signal::{signal_views, SignalPoint, SignalView};
use crate::scalar::{whole, Scalar};
use crate::series::{
    closes_of, copy_of, lemma_series_times_are_candle_times, stands_on, times_among, times_of,
};
use crate::ta_engine::adx::adx_spec;
use crate::ta_engine::anchored_vwap::anchor_index;
use crate::ta_engine::atr::atr_spec;
use crate::ta_engine::auto_fib::auto_fib_spec;
use crate::ta_engine::bollinger::bollinger_spec;
use crate::ta_engine::choppiness::choppiness_spec;
use crate::ta_engine::cmf::cmf_spec;
use crate::ta_engine::cvd::cvd_spec;
use crate::ta_engine::donchian::donchian_spec;
use crate::ta_engine::ema::ema_seq;
use crate::ta_engine::hma::{hma_offset, hma_seq};
use crate::ta_engine::ichimoku::ichimoku_spec;
use crate::ta_engine::keltner::{keltner_period, keltner_spec};
use crate::ta_engine::macd::macd_spec;
use crate::ta_engine::mfi::mfi_spec;
use crate::ta_engine::obv::obv_spec;
use crate::ta_engine::parabolic_sar::parabolic_sar_spec;
use crate::ta_engine::quant_filter::{apply_bb_rsi_quant_filter, quant_filter_spec};
use crate::ta_engine::rsi::rsi_spec;
use crate::ta_engine::signal::{
    bb_rsi_signals, detect_bb_rsi, detect_macd, detect_stochastic, lemma_times_within_wider,
    macd_signals, stochastic_signals, times_within,
};
use crate::ta_engine::sma::{ma_points_spec, sma_seq};
use crate::ta_engine::smc::{event_views, smc_spec};
use crate::ta_engine::sorting::{
    lemma_sorted_times_within, non_decreasing, sort_signals, sorted_by_time,
};
use crate::ta_engine::stc::{stc_offset, stc_spec};
use crate::ta_engine::stochastic::stochastic_spec;
use crate::ta_engine::strategies::{
    cmf_obv_signals, detect_cmf_obv, detect_ema_crossover, detect_ibs_mean_reversion,
    detect_macd_hist_reversal, detect_parabolic_sar_reversal, detect_rsi_divergence,
    detect_stoch_rsi_combined, detect_supertrend_adx, detect_ttm_squeeze, detect_vwap_breakout,
    divergence_signals, ema_crossover_signals, ibs_signals, macd_hist_signals,
    sar_reversal_signals, squeeze_scan, stoch_rsi_signals, supertrend_adx_signals,
    vwap_breakout_signals,
};
use crate::ta_engine::supertrend::supertrend_spec;
use crate::ta_engine::vwap::vwap_from;
use crate::ta_engine::{
    adx, anchored_vwap, atr, auto_fib, bollinger, choppiness, cmf, cvd, donchian, ema, hma,
    ichimoku, keltner, macd, mfi, obv, parabolic_sar, rsi, sma, smc, stc, stochastic, supertrend,
    vwap, williams_r,
};
use crate::ta_engine::williams_r::willr_spec;
use vstd::prelude::*;

verus! {

/// The window of the average true range that every analysis holds.
pub const ATR_PERIOD: usize = 14;

/// The window of the Supertrend that every analysis holds.
pub const SUPERTREND_PERIOD: usize = 10;

/// The window of the ADX that confirms a Supertrend turn where none was
/// asked for.
pub const FALLBACK_ADX_PERIOD: usize = 14;

/// The window of the money flow that the CMF+OBV strategy reads where
/// none was asked for.
pub const FALLBACK_CMF_PERIOD: usize = 20;

/// The simple moving average of the closes with its points.
pub open spec fn sma_points<V: Scalar>(candles: Seq<Candle<V>>, period: usize) -> Seq<MaPoint<V>> {
    ma_points_spec(sma_seq(closes_of(candles), period), candles, period - 1)
}

/// The exponential moving average of the closes with its points.
pub open spec fn ema_points<V: Scalar>(candles: Seq<Candle<V>>, period: usize) -> Seq<MaPoint<V>> {
    ma_points_spec(ema_seq(closes_of(candles), period), candles, period - 1)
}

/// The Hull moving average of the closes with its points.
pub open spec fn hma_points<V: Scalar>(candles: Seq<Candle<V>>, period: usize) -> Seq<MaPoint<V>> {
    ma_points_spec(hma_seq(closes_of(candles), period), candles, hma_offset(period))
}

/// The Bollinger bands that an analysis holds.
pub open spec fn bands_of<V: Scalar>(candles: Seq<Candle<V>>, params: AnalysisParams<V>) -> Seq<
    BollingerBandsPoint<V>,
> {
    bollinger_spec(candles, params.bb_period, params.bb_multiplier)
}

/// The acceleration step of the parabolic stop that every analysis holds.
pub open spec fn sar_step_size<V: Scalar>() -> V {
    V::from_ratio(2, 100)
}

/// The greatest acceleration of the parabolic stop that every analysis
/// holds.
pub open spec fn sar_max_step<V: Scalar>() -> V {
    V::from_ratio(2, 10)
}

/// The BB+RSI signals of an analysis, after the quant filter.
pub open spec fn base_signals<V: Scalar>(candles: Seq<Candle<V>>, params: AnalysisParams<V>) -> Seq<
    SignalView<V>,
> {
    quant_filter_spec(
        bb_rsi_signals(
            bands_of(candles, params),
            rsi_spec(candles, params.rsi_period),
            candles,
            candles.len() as int,
        ),
        candles,
        params.signal_filter,
    )
}

/// The signals of MACD and of the stochastic oscillator, each where it
/// was asked for.
pub open spec fn oscillator_signals<V: Scalar>(
    candles: Seq<Candle<V>>,
    params: AnalysisParams<V>,
) -> Seq<SignalView<V>> {
    (match params.macd {
        Some(p) => {
            let points = macd_spec(candles, p.fast_period, p.slow_period, p.signal_period);
            macd_signals(points, candles, points.len() as int)
        },
        None => Seq::empty(),
    }) + (match params.stochastic {
        Some(p) => {
            let points = stochastic_spec(candles, p.k_period, p.d_period, p.smooth);
            stochastic_signals(points, candles, points.len() as int)
        },
        None => Seq::empty(),
    })
}

/// The signals of the first five quant strategies, each where it is
/// switched on: Supertrend with ADX, the crossover of two exponential
/// averages, stochastic with RSI (where the oscillator was asked for),
/// money flow with on-balance volume, and the squeeze (where MACD was
/// asked for). A strategy reads the series that was asked for, or one
/// with the customary windows where none was.
pub open spec fn trend_strategy_signals<V: Scalar>(
    candles: Seq<Candle<V>>,
    params: AnalysisParams<V>,
) -> Seq<SignalView<V>> {
    let on = params.signal_strategies;
    (if on.supertrend_adx {
        let line = supertrend_spec(candles, SUPERTREND_PERIOD, whole::<V>(3));
        supertrend_adx_signals(
            line,
            adx_spec(
                candles,
                match params.adx {
                    Some(p) => p.period,
                    None => FALLBACK_ADX_PERIOD,
                },
            ),
            candles,
            line.len() as int,
        )
    } else {
        Seq::empty()
    }) + (if on.ema_crossover {
        let fast = ema_points(candles, on.ema_fast_period);
        ema_crossover_signals(fast, ema_points(candles, on.ema_slow_period), candles, fast.len() as int)
    } else {
        Seq::empty()
    }) + (match params.stochastic {
        Some(p) => if on.stoch_rsi_combined {
            let points = stochastic_spec(candles, p.k_period, p.d_period, p.smooth);
            stoch_rsi_signals(points, rsi_spec(candles, params.rsi_period), candles, points.len() as int)
        } else {
            Seq::empty()
        },
        None => Seq::empty(),
    }) + (if on.cmf_obv {
        let flow = cmf_spec(
            candles,
            match params.cmf {
                Some(p) => p.period,
                None => FALLBACK_CMF_PERIOD,
            },
        );
        cmf_obv_signals(flow, obv_spec(candles), candles, flow.len() as int)
    } else {
        Seq::empty()
    }) + (match params.macd {
        Some(p) => if on.ttm_squeeze {
            let bands = bands_of(candles, params);
            squeeze_scan(
                bands,
                match params.keltner {
                    Some(k) => keltner_spec(candles, k.ema_period, k.atr_period, k.atr_multiplier),
                    None => keltner_spec(candles, 20, 10, whole::<V>(2)),
                },
                macd_spec(candles, p.fast_period, p.slow_period, p.signal_period),
                candles,
                bands.len() as int,
            ).signals
        } else {
            Seq::empty()
        },
        None => Seq::empty(),
    })
}

/// The signals of the last five quant strategies, each where it is
/// switched on: the breakout from VWAP, the reversal of the parabolic
/// stop, the reversal of the MACD histogram (where MACD was asked for),
/// the mean reversion of the bar strength, and the RSI divergence.
pub open spec fn reversal_strategy_signals<V: Scalar>(
    candles: Seq<Candle<V>>,
    params: AnalysisParams<V>,
) -> Seq<SignalView<V>> {
    let on = params.signal_strategies;
    let strength = rsi_spec(candles, params.rsi_period);
    (if on.vwap_breakout {
        vwap_breakout_signals(vwap_from(candles, 0), candles, candles.len() as int)
    } else {
        Seq::empty()
    }) + (if on.parabolic_sar {
        let stops = parabolic_sar_spec(candles, sar_step_size::<V>(), sar_max_step::<V>());
        sar_reversal_signals(stops, candles, stops.len() as int)
    } else {
        Seq::empty()
    }) + (match params.macd {
        Some(p) => if on.macd_hist_reversal {
            let points = macd_spec(candles, p.fast_period, p.slow_period, p.signal_period);
            macd_hist_signals(points, candles, points.len() as int)
        } else {
            Seq::empty()
        },
        None => Seq::empty(),
    }) + (if on.ibs_mean_reversion {
        ibs_signals(strength, candles, candles.len() as int)
    } else {
        Seq::empty()
    }) + (if on.rsi_divergence {
        divergence_signals(strength, candles, on.divergence_swing_length)
    } else {
        Seq::empty()
    })
}

/// All signals of an analysis in the order in which they are found.
pub open spec fn found_signals<V: Scalar>(candles: Seq<Candle<V>>, params: AnalysisParams<V>) -> Seq<
    SignalView<V>,
> {
    base_signals(candles, params) + oscillator_signals(candles, params) + trend_strategy_signals(
        candles,
        params,
    ) + reversal_strategy_signals(candles, params)
}

/// Whether the results are the moving averages of the periods, one for
/// each period and in their order.
pub open spec fn averages_match<V>(
    results: Seq<MovingAverageResult<V>>,
    periods: Seq<usize>,
    points: spec_fn(usize) -> Seq<MaPoint<V>>,
) -> bool {
    &&& results.len() == periods.len()
    &&& forall|i: int|
        0 <= i < results.len() ==> (#[trigger] results[i]).period == periods[i] && results[i].data@
            == points(periods[i])
}

/// Whether the averages stand on the candles, each from the candle that
/// `offset` gives for its period.
pub open spec fn averages_stand_on<V>(
    results: Seq<MovingAverageResult<V>>,
    candles: Seq<Candle<V>>,
    offset: spec_fn(usize) -> int,
) -> bool {
    forall|i: int|
        0 <= i < results.len() ==> stands_on(
            (#[trigger] results[i]).data@,
            candles,
            offset(results[i].period),
        )
}

/// Whether every series of the response stands on the candles, point by
/// point, from the candle at which its warm-up ends: no series holds a
/// time that is not a candle's, and each keeps the candles' order.
pub open spec fn series_stand_on_candles<V: Scalar>(
    r: AnalysisResponse<V>,
    candles: Seq<Candle<V>>,
    params: AnalysisParams<V>,
) -> bool {
    &&& stands_on(r.bollinger_bands@, candles, params.bb_period - 1)
    &&& stands_on(r.rsi@, candles, params.rsi_period as int)
    &&& averages_stand_on(r.sma@, candles, |p: usize| p - 1)
    &&& averages_stand_on(r.ema@, candles, |p: usize| p - 1)
    &&& averages_stand_on(r.hma@, candles, |p: usize| hma_offset(p))
    &&& match (r.macd, params.macd) {
        (Some(m), Some(p)) => stands_on(m.data@, candles, p.slow_period - 1 + p.signal_period - 1),
        _ => true,
    }
    &&& match (r.stochastic, params.stochastic) {
        (Some(s), Some(p)) => stands_on(
            s.data@,
            candles,
            p.k_period - 1 + p.smooth - 1 + p.d_period - 1,
        ),
        _ => true,
    }
    &&& r.obv matches Some(o) ==> stands_on(o.data@, candles, 0)
    &&& r.vwap matches Some(v) ==> stands_on(v.data@, candles, 0)
    &&& r.atr matches Some(a) ==> stands_on(a.data@, candles, ATR_PERIOD - 1)
    &&& r.ichimoku matches Some(i) ==> stands_on(i.data@, candles, 0)
    &&& r.supertrend matches Some(s) ==> stands_on(s.data@, candles, SUPERTREND_PERIOD - 1)
    &&& r.parabolic_sar matches Some(s) ==> stands_on(s.data@, candles, 0)
    &&& r.donchian matches Some(d) ==> stands_on(d.data@, candles, d.period - 1)
    &&& r.keltner matches Some(k) ==> stands_on(
        k.data@,
        candles,
        keltner_period(k.ema_period, k.atr_period) - 1,
    )
    &&& r.mfi matches Some(m) ==> stands_on(m.data@, candles, m.period as int)
    &&& r.cmf matches Some(c) ==> stands_on(c.data@, candles, c.period - 1)
    &&& r.choppiness matches Some(c) ==> stands_on(c.data@, candles, c.period - 1)
    &&& r.williams_r matches Some(w) ==> stands_on(w.data@, candles, w.period - 1)
    &&& r.adx matches Some(a) ==> stands_on(a.data@, candles, 2 * a.period - 1)
    &&& r.cvd matches Some(c) ==> stands_on(c.data@, candles, 0)
    &&& r.stc matches Some(s) ==> stands_on(s.data@, candles, stc_offset(s.tc_len, s.slow_ma))
    &&& match (r.anchored_vwap, params.anchored_vwap) {
        (Some(v), Some(p)) => stands_on(v.data@, candles, anchor_index(candles, p.anchor_time, 0)),
        _ => true,
    }
}

/// Puts more signals behind the others. Signals that stand on the times
/// of the series that they were found in stand on every series of times
/// that holds those.
fn extend<V: Scalar>(
    signals: &mut Vec<SignalPoint<V>>,
    more: Vec<SignalPoint<V>>,
    Ghost(found_on): Ghost<Seq<i64>>,
    Ghost(times): Ghost<Seq<i64>>,
)
    requires
        times_within(signal_views(more@), found_on),
        times_among(found_on, times),
    ensures
        signal_views(final(signals)@) == signal_views(old(signals)@) + signal_views(more@),
        times_within(signal_views(old(signals)@), times) ==> times_within(
            signal_views(final(signals)@),
            times,
        ),
{
    let ghost before = signals@;
    let ghost added = more@;
    let mut more = more;
    signals.append(&mut more);
    assert(signals@ =~= before + added);
    assert(signal_views(signals@) =~= signal_views(before) + signal_views(added));
    proof {
        lemma_times_within_wider(signal_views(added), found_on, times);
        if times_within(signal_views(before), times) {
            assert forall|k: int| 0 <= k < signal_views(signals@).len() implies times.contains(
                (#[trigger] signal_views(signals@)[k]).time,
            ) by {
                if k < before.len() {
                    assert(signal_views(signals@)[k] == signal_views(before)[k]);
                } else {
                    assert(signal_views(signals@)[k] == signal_views(added)[k - before.len()]);
                }
            }
        }
    }
}

/// Whether `result` is MACD as the parameters ask for it.
pub open spec fn macd_matches<V: Scalar>(
    result: Option<MacdResult<V>>,
    candles: Seq<Candle<V>>,
    params: AnalysisParams<V>,
) -> bool {
    match params.macd {
        Some(p) => result matches Some(m) && m.data@ == macd_spec(
            candles,
            p.fast_period,
            p.slow_period,
            p.signal_period,
        ),
        None => result is None,
    }
}

/// Whether `result` is the stochastic oscillator as the parameters ask
/// for it.
pub open spec fn stochastic_matches<V: Scalar>(
    result: Option<StochasticResult<V>>,
    candles: Seq<Candle<V>>,
    params: AnalysisParams<V>,
) -> bool {
    match params.stochastic {
        Some(p) => result matches Some(s) && s.data@ == stochastic_spec(
            candles,
            p.k_period,
            p.d_period,
            p.smooth,
        ),
        None => result is None,
    }
}

/// Whether `result` is the ADX as the parameters ask for it.
pub open spec fn adx_matches<V: Scalar>(
    result: Option<AdxResult<V>>,
    candles: Seq<Candle<V>>,
    params: AnalysisParams<V>,
) -> bool {
    match params.adx {
        Some(p) => result matches Some(a) && a.period == p.period && a.data@ == adx_spec(
            candles,
            p.period,
        ),
        None => result is None,
    }
}

/// Whether `result` is the Chaikin money flow as the parameters ask for
/// it.
pub open spec fn cmf_matches<V: Scalar>(
    result: Option<CmfResult<V>>,
    candles: Seq<Candle<V>>,
    params: AnalysisParams<V>,
) -> bool {
    match params.cmf {
        Some(p) => result matches Some(c) && c.period == p.period && c.data@ == cmf_spec(
            candles,
            p.period,
        ),
        None => result is None,
    }
}

/// Whether `result` is the on-balance volume where the parameters ask for
/// it.
pub open spec fn obv_matches<V: Scalar>(
    result: Option<ObvResult<V>>,
    candles: Seq<Candle<V>>,
    params: AnalysisParams<V>,
) -> bool {
    if params.show_obv {
        result matches Some(o) && o.data@ == obv_spec(candles)
    } else {
        result is None
    }
}

/// Whether `result` is the Keltner channel as the parameters ask for it.
pub open spec fn keltner_matches<V: Scalar>(
    result: Option<KeltnerResult<V>>,
    candles: Seq<Candle<V>>,
    params: AnalysisParams<V>,
) -> bool {
    match params.keltner {
        Some(p) => result matches Some(k) && k.ema_period == p.ema_period && k.atr_period
            == p.atr_period && k.atr_multiplier == p.atr_multiplier && k.data@ == keltner_spec(
            candles,
            p.ema_period,
            p.atr_period,
            p.atr_multiplier,
        ),
        None => result is None,
    }
}

/// Whether `result` is the Supertrend that every analysis holds.
pub open spec fn supertrend_matches<V: Scalar>(
    result: SupertrendResult<V>,
    candles: Seq<Candle<V>>,
) -> bool {
    result.period == SUPERTREND_PERIOD && result.multiplier == whole::<V>(3) && result.data@
        == supertrend_spec(candles, SUPERTREND_PERIOD, whole::<V>(3))
}

/// Whether `result` is the parabolic stop that every analysis holds.
pub open spec fn sar_matches<V: Scalar>(
    result: ParabolicSarResult<V>,
    candles: Seq<Candle<V>>,
) -> bool {
    result.step == sar_step_size::<V>() && result.max_step == sar_max_step::<V>() && result.data@
        == parabolic_sar_spec(candles, sar_step_size::<V>(), sar_max_step::<V>())
}

/// Whether every time of the points is a candle's.
pub open spec fn on_candle_times<P: crate::series::Timed, V>(
    points: Seq<P>,
    candles: Seq<Candle<V>>,
) -> bool {
    times_among(times_of(points), times_of(candles))
}

fn oscillator_part<V: Scalar>(
    candles: &[Candle<V>],
    params: &AnalysisParams<V>,
    macd_result: &Option<MacdResult<V>>,
    stochastic_result: &Option<StochasticResult<V>>,
) -> (r: Vec<SignalPoint<V>>)
    requires
        macd_matches(*macd_result, candles@, *params),
        stochastic_matches(*stochastic_result, candles@, *params),
        *macd_result matches Some(m) ==> on_candle_times(m.data@, candles@),
        *stochastic_result matches Some(s) ==> on_candle_times(s.data@, candles@),
    ensures
        signal_views(r@) == oscillator_signals(candles@, *params),
        times_within(signal_views(r@), times_of(candles@)),
{
    let mut signals: Vec<SignalPoint<V>> = Vec::new();
    let ghost none = Seq::<SignalView<V>>::empty();
    assert(signal_views(signals@) =~= none);
    if let Some(result) = macd_result {
        extend(
            &mut signals,
            detect_macd(result, candles),
            Ghost(times_of(result.data@)),
            Ghost(times_of(candles@)),
        );
    }
    let ghost first = signal_views(signals@);
    assert(first + none =~= first);
    assert(none + first =~= first);
    if let Some(result) = stochastic_result {
        extend(
            &mut signals,
            detect_stochastic(result, candles),
            Ghost(times_of(result.data@)),
            Ghost(times_of(candles@)),
        );
    }
    assert(signal_views(signals@) =~= oscillator_signals(candles@, *params));
    signals
}

fn trend_part<V: Scalar>(
    candles: &[Candle<V>],
    params: &AnalysisParams<V>,
    bands: &Vec<BollingerBandsPoint<V>>,
    strength: &Vec<RsiPoint<V>>,
    macd_result: &Option<MacdResult<V>>,
    stochastic_result: &Option<StochasticResult<V>>,
    supertrend_result: &SupertrendResult<V>,
    adx_result: &Option<AdxResult<V>>,
    cmf_result: &Option<CmfResult<V>>,
    obv_result: &Option<ObvResult<V>>,
    keltner_result: &Option<KeltnerResult<V>>,
) -> (r: Vec<SignalPoint<V>>)
    requires
        bands@ == bands_of(candles@, *params),
        strength@ == rsi_spec(candles@, params.rsi_period),
        macd_matches(*macd_result, candles@, *params),
        stochastic_matches(*stochastic_result, candles@, *params),
        supertrend_matches(*supertrend_result, candles@),
        adx_matches(*adx_result, candles@, *params),
        cmf_matches(*cmf_result, candles@, *params),
        obv_matches(*obv_result, candles@, *params),
        keltner_matches(*keltner_result, candles@, *params),
        on_candle_times(bands@, candles@),
        on_candle_times(supertrend_result.data@, candles@),
        *macd_result matches Some(m) ==> on_candle_times(m.data@, candles@),
        *stochastic_result matches Some(s) ==> on_candle_times(s.data@, candles@),
        *cmf_result matches Some(c) ==> on_candle_times(c.data@, candles@),
    ensures
        signal_views(r@) == trend_strategy_signals(candles@, *params),
        times_within(signal_views(r@), times_of(candles@)),
{
    let on = &params.signal_strategies;
    let mut signals: Vec<SignalPoint<V>> = Vec::new();
    let ghost none = Seq::<SignalView<V>>::empty();
    assert(signal_views(signals@) =~= none);
    if on.supertrend_adx {
        match adx_result {
            Some(result) => {
                extend(
                    &mut signals,
                    detect_supertrend_adx(supertrend_result, result, candles),
                    Ghost(times_of(supertrend_result.data@)),
                    Ghost(times_of(candles@)),
                );
            },
            None => {
                let fallback = adx::calculate(candles, FALLBACK_ADX_PERIOD);
                extend(
                    &mut signals,
                    detect_supertrend_adx(supertrend_result, &fallback, candles),
                    Ghost(times_of(supertrend_result.data@)),
                    Ghost(times_of(candles@)),
                );
            },
        }
    }
    let ghost s1 = signal_views(signals@);
    assert(none + s1 =~= s1);
    assert(s1 + none =~= s1);
    if on.ema_crossover {
        let fast = ema::calculate(candles, on.ema_fast_period);
        let slow = ema::calculate(candles, on.ema_slow_period);
        proof {
            lemma_series_times_are_candle_times(fast.data@, candles@, on.ema_fast_period - 1);
        }
        extend(
            &mut signals,
            detect_ema_crossover(&fast, &slow, candles),
            Ghost(times_of(fast.data@)),
            Ghost(times_of(candles@)),
        );
    }
    let ghost s2 = signal_views(signals@);
    assert(s2 + none =~= s2);
    if on.stoch_rsi_combined {
        if let Some(result) = stochastic_result {
            extend(
                &mut signals,
                detect_stoch_rsi_combined(result, strength.as_slice(), candles),
                Ghost(times_of(result.data@)),
                Ghost(times_of(candles@)),
            );
        }
    }
    let ghost s3 = signal_views(signals@);
    assert(s3 + none =~= s3);
    if on.cmf_obv {
        let flow_fallback: CmfResult<V>;
        let flow = match cmf_result {
            Some(result) => result,
            None => {
                flow_fallback = cmf::calculate(candles, FALLBACK_CMF_PERIOD);
                proof {
                    lemma_series_times_are_candle_times(
                        flow_fallback.data@,
                        candles@,
                        FALLBACK_CMF_PERIOD - 1,
                    );
                }
                &flow_fallback
            },
        };
        let balance_fallback: ObvResult<V>;
        let balance = match obv_result {
            Some(result) => result,
            None => {
                balance_fallback = obv::calculate(candles);
                &balance_fallback
            },
        };
        extend(
            &mut signals,
            detect_cmf_obv(flow, balance, candles),
            Ghost(times_of(flow.data@)),
            Ghost(times_of(candles@)),
        );
    }
    let ghost s4 = signal_views(signals@);
    assert(s4 + none =~= s4);
    if on.ttm_squeeze {
        if let Some(lines) = macd_result {
            match keltner_result {
                Some(channel) => {
                    extend(
                        &mut signals,
                        detect_ttm_squeeze(bands.as_slice(), channel, lines, candles),
                        Ghost(times_of(bands@)),
                        Ghost(times_of(candles@)),
                    );
                },
                None => {
                    let fallback = keltner::calculate(candles, 20, 10, whole(2));
                    extend(
                        &mut signals,
                        detect_ttm_squeeze(bands.as_slice(), &fallback, lines, candles),
                        Ghost(times_of(bands@)),
                        Ghost(times_of(candles@)),
                    );
                },
            }
        }
    }
    signals
}

fn reversal_part<V: Scalar>(
    candles: &[Candle<V>],
    params: &AnalysisParams<V>,
    strength: &Vec<RsiPoint<V>>,
    macd_result: &Option<MacdResult<V>>,
    vwap_result: &VwapResult<V>,
    sar_result: &ParabolicSarResult<V>,
) -> (r: Vec<SignalPoint<V>>)
    requires
        strength@ == rsi_spec(candles@, params.rsi_period),
        macd_matches(*macd_result, candles@, *params),
        vwap_result.data@ == vwap_from(candles@, 0),
        sar_matches(*sar_result, candles@),
        on_candle_times(sar_result.data@, candles@),
        *macd_result matches Some(m) ==> on_candle_times(m.data@, candles@),
    ensures
        signal_views(r@) == reversal_strategy_signals(candles@, *params),
        times_within(signal_views(r@), times_of(candles@)),
{
    let on = &params.signal_strategies;
    let mut signals: Vec<SignalPoint<V>> = Vec::new();
    let ghost none = Seq::<SignalView<V>>::empty();
    assert(signal_views(signals@) =~= none);
    if on.vwap_breakout {
        extend(
            &mut signals,
            detect_vwap_breakout(vwap_result, candles),
            Ghost(times_of(candles@)),
            Ghost(times_of(candles@)),
        );
    }
    let ghost s1 = signal_views(signals@);
    assert(none + s1 =~= s1);
    assert(s1 + none =~= s1);
    if on.parabolic_sar {
        extend(
            &mut signals,
            detect_parabolic_sar_reversal(sar_result, candles),
            Ghost(times_of(sar_result.data@)),
            Ghost(times_of(candles@)),
        );
    }
    let ghost s2 = signal_views(signals@);
    assert(s2 + none =~= s2);
    if on.macd_hist_reversal {
        if let Some(lines) = macd_result {
            extend(
                &mut signals,
                detect_macd_hist_reversal(lines, candles),
                Ghost(times_of(lines.data@)),
                Ghost(times_of(candles@)),
            );
        }
    }
    let ghost s3 = signal_views(signals@);
    assert(s3 + none =~= s3);
    if on.ibs_mean_reversion {
        extend(
            &mut signals,
            detect_ibs_mean_reversion(strength.as_slice(), candles),
            Ghost(times_of(candles@)),
            Ghost(times_of(candles@)),
        );
    }
    let ghost s4 = signal_views(signals@);
    assert(s4 + none =~= s4);
    if on.rsi_divergence {
        extend(
            &mut signals,
            detect_rsi_divergence(strength.as_slice(), candles, on.divergence_swing_length),
            Ghost(times_of(candles@)),
            Ghost(times_of(candles@)),
        );
    }
    signals
}

fn simple_averages<V: Scalar>(candles: &[Candle<V>], periods: &Vec<usize>) -> (r: Vec<
    MovingAverageResult<V>,
>)
    ensures
        averages_match(r@, periods@, |p: usize| sma_points(candles@, p)),
        averages_stand_on(r@, candles@, |p: usize| p - 1),
{
    let mut results: Vec<MovingAverageResult<V>> = Vec::with_capacity(periods.len());
    let mut i: usize = 0;
    while i < periods.len()
        invariant
            i <= periods@.len(),
            results@.len() == i,
            forall|j: int|
                0 <= j < i ==> (#[trigger] results@[j]).period == periods@[j] && results@[j].data@
                    == sma_points(candles@, periods@[j]) && stands_on(
                    results@[j].data@,
                    candles@,
                    results@[j].period - 1,
                ),
        decreases periods@.len() - i,
    {
        results.push(sma::calculate(candles, periods[i]));
        i += 1;
    }
    results
}

fn exponential_averages<V: Scalar>(candles: &[Candle<V>], periods: &Vec<usize>) -> (r: Vec<
    MovingAverageResult<V>,
>)
    ensures
        averages_match(r@, periods@, |p: usize| ema_points(candles@, p)),
        averages_stand_on(r@, candles@, |p: usize| p - 1),
{
    let mut results: Vec<MovingAverageResult<V>> = Vec::with_capacity(periods.len());
    let mut i: usize = 0;
    while i < periods.len()
        invariant
            i <= periods@.len(),
            results@.len() == i,
            forall|j: int|
                0 <= j < i ==> (#[trigger] results@[j]).period == periods@[j] && results@[j].data@
                    == ema_points(candles@, periods@[j]) && stands_on(
                    results@[j].data@,
                    candles@,
                    results@[j].period - 1,
                ),
        decreases periods@.len() - i,
    {
        results.push(ema::calculate(candles, periods[i]));
        i += 1;
    }
    results
}

fn hull_averages<V: Scalar>(candles: &[Candle<V>], periods: &Vec<usize>) -> (r: Vec<
    MovingAverageResult<V>,
>)
    ensures
        averages_match(r@, periods@, |p: usize| hma_points(candles@, p)),
        averages_stand_on(r@, candles@, |p: usize| hma_offset(p)),
{
    let mut results: Vec<MovingAverageResult<V>> = Vec::with_capacity(periods.len());
    let mut i: usize = 0;
    while i < periods.len()
        invariant
            i <= periods@.len(),
            results@.len() == i,
            forall|j: int|
                0 <= j < i ==> (#[trigger] results@[j]).period == periods@[j] && results@[j].data@
                    == hma_points(candles@, periods@[j]) && stands_on(
                    results@[j].data@,
                    candles@,
                    hma_offset(results@[j].period),
                ),
        decreases periods@.len() - i,
    {
        results.push(hma::calculate(candles, periods[i]));
        i += 1;
    }
    results
}

/// Computes every series that the parameters ask for, and the signals.
///
/// The Bollinger bands, the relative strength index, the average price,
/// the average true range, the Ichimoku lines, the Supertrend and the
/// parabolic stop are always there; the other series are there where
/// their parameters are. The signals are those of the detectors, in the
/// order of their times; signals at one time stand in the order in which
/// they were found. Every signal stands on a candle.
pub fn analyze<V: Scalar>(candles: &[Candle<V>], params: &AnalysisParams<V>) -> (r:
    AnalysisResponse<V>)
    ensures
        r.candles@ == candles@,
        r.symbol@ == params.symbol@,
        r.interval@ == params.interval@,
        r.bollinger_bands@ == bands_of(candles@, *params),
        r.rsi@ == rsi_spec(candles@, params.rsi_period),
        signal_views(r.signals@) == sorted_by_time(found_signals(candles@, *params)),
        non_decreasing(signal_views(r.signals@)),
        times_within(signal_views(r.signals@), times_of(candles@)),
        series_stand_on_candles(r, candles@, *params),
        averages_match(r.sma@, params.sma_periods@, |p: usize| sma_points(candles@, p)),
        averages_match(r.ema@, params.ema_periods@, |p: usize| ema_points(candles@, p)),
        averages_match(r.hma@, params.hma_periods@, |p: usize| hma_points(candles@, p)),
        macd_matches(r.macd, candles@, *params),
        stochastic_matches(r.stochastic, candles@, *params),
        obv_matches(r.obv, candles@, *params),
        r.vwap matches Some(v) && v.data@ == vwap_from(candles@, 0),
        r.atr matches Some(a) && a.period == ATR_PERIOD && a.data@ == atr_spec(
            candles@,
            ATR_PERIOD,
        ),
        r.ichimoku matches Some(i) && i.data@ == ichimoku_spec(candles@, 9, 26, 52, 26),
        r.supertrend matches Some(s) && supertrend_matches(s, candles@),
        r.parabolic_sar matches Some(s) && sar_matches(s, candles@),
        match params.donchian {
            Some(p) => r.donchian matches Some(d) && d.period == p.period && d.data@
                == donchian_spec(candles@, p.period),
            None => r.donchian is None,
        },
        keltner_matches(r.keltner, candles@, *params),
        match params.mfi {
            Some(p) => r.mfi matches Some(m) && m.period == p.period && m.data@ == mfi_spec(
                candles@,
                p.period,
            ),
            None => r.mfi is None,
        },
        cmf_matches(r.cmf, candles@, *params),
        match params.choppiness {
            Some(p) => r.choppiness matches Some(c) && c.period == p.period && c.data@
                == choppiness_spec(candles@, p.period),
            None => r.choppiness is None,
        },
        match params.williams_r {
            Some(p) => r.williams_r matches Some(w) && w.period == p.period && w.data@
                == willr_spec(candles@, p.period),
            None => r.williams_r is None,
        },
        adx_matches(r.adx, candles@, *params),
        if params.show_cvd {
            r.cvd matches Some(c) && c.data@ == cvd_spec(candles@)
        } else {
            r.cvd is None
        },
        match params.stc {
            Some(p) => r.stc matches Some(s) && s.tc_len == p.tc_len && s.fast_ma == p.fast_ma
                && s.slow_ma == p.slow_ma && s.data@ == stc_spec(
                candles@,
                p.tc_len,
                p.fast_ma,
                p.slow_ma,
            ),
            None => r.stc is None,
        },
        match params.smc {
            Some(p) => r.smc matches Some(s) && event_views(s.data@) == smc_spec(
                candles@,
                p.swing_length,
            ),
            None => r.smc is None,
        },
        match params.anchored_vwap {
            Some(p) => r.anchored_vwap matches Some(v) && v.data@ == vwap_from(
                candles@,
                anchor_index(candles@, p.anchor_time, 0),
            ),
            None => r.anchored_vwap is None,
        },
        match params.auto_fib {
            Some(p) => r.auto_fib matches Some(f) && f@ == auto_fib_spec(
                candles@,
                p.lookback,
                p.swing_length,
            ),
            None => r.auto_fib is None,
        },
{
    let bands = bollinger::calculate(candles, params.bb_period, params.bb_multiplier);
    let strength = rsi::calculate(candles, params.rsi_period);
    let vwap_result = vwap::calculate(candles);
    let atr_result = atr::calculate(candles, ATR_PERIOD);
    let ichimoku_result = ichimoku::calculate(candles, 9, 26, 52, 26);
    let supertrend_result = supertrend::calculate(candles, SUPERTREND_PERIOD, whole(3));
    let sar_result = parabolic_sar::calculate(candles, V::from_ratio(2, 100), V::from_ratio(2, 10));

    let found = detect_bb_rsi(bands.as_slice(), strength.as_slice(), candles);
    let mut signals = apply_bb_rsi_quant_filter(found, candles, &params.signal_filter);

    let sma_results = simple_averages(candles, &params.sma_periods);
    let ema_results = exponential_averages(candles, &params.ema_periods);
    let hma_results = hull_averages(candles, &params.hma_periods);

    let macd_result = match params.macd {
        Some(p) => Some(macd::calculate(candles, p.fast_period, p.slow_period, p.signal_period)),
        None => None,
    };
    let stochastic_result = match params.stochastic {
        Some(p) => Some(stochastic::calculate(candles, p.k_period, p.d_period, p.smooth)),
        None => None,
    };
    let obv_result = if params.show_obv {
        Some(obv::calculate(candles))
    } else {
        None
    };
    let donchian_result = match params.donchian {
        Some(p) => Some(donchian::calculate(candles, p.period)),
        None => None,
    };
    let keltner_result = match params.keltner {
        Some(p) => Some(keltner::calculate(candles, p.ema_period, p.atr_period, p.atr_multiplier)),
        None => None,
    };
    let mfi_result = match params.mfi {
        Some(p) => Some(mfi::calculate(candles, p.period)),
        None => None,
    };
    let cmf_result = match params.cmf {
        Some(p) => Some(cmf::calculate(candles, p.period)),
        None => None,
    };
    let choppiness_result = match params.choppiness {
        Some(p) => Some(choppiness::calculate(candles, p.period)),
        None => None,
    };
    let willr_result = match params.williams_r {
        Some(p) => Some(williams_r::calculate(candles, p.period)),
        None => None,
    };
    let adx_result = match params.adx {
        Some(p) => Some(adx::calculate(candles, p.period)),
        None => None,
    };
    let cvd_result = if params.show_cvd {
        Some(cvd::calculate(candles))
    } else {
        None
    };
    let stc_result = match params.stc {
        Some(p) => Some(stc::calculate(candles, p.tc_len, p.fast_ma, p.slow_ma)),
        None => None,
    };
    let smc_result = match params.smc {
        Some(p) => Some(smc::calculate(candles, p.swing_length)),
        None => None,
    };
    let anchored_result = match params.anchored_vwap {
        Some(p) => Some(anchored_vwap::calculate(candles, p.anchor_time)),
        None => None,
    };
    let fib_result = match params.auto_fib {
        Some(p) => Some(auto_fib::calculate(candles, p.lookback, p.swing_length)),
        None => None,
    };

    proof {
        lemma_series_times_are_candle_times(bands@, candles@, params.bb_period - 1);
        lemma_series_times_are_candle_times(supertrend_result.data@, candles@, SUPERTREND_PERIOD - 1);
        lemma_series_times_are_candle_times(sar_result.data@, candles@, 0);
        if macd_result is Some && params.macd is Some {
            lemma_series_times_are_candle_times(
                macd_result.unwrap().data@,
                candles@,
                params.macd.unwrap().slow_period - 1 + params.macd.unwrap().signal_period - 1,
            );
        }
        if stochastic_result is Some && params.stochastic is Some {
            lemma_series_times_are_candle_times(
                stochastic_result.unwrap().data@,
                candles@,
                params.stochastic.unwrap().k_period - 1 + params.stochastic.unwrap().smooth - 1
                    + params.stochastic.unwrap().d_period - 1,
            );
        }
        if cmf_result is Some {
            lemma_series_times_are_candle_times(
                cmf_result.unwrap().data@,
                candles@,
                cmf_result.unwrap().period - 1,
            );
        }
    }
    extend(
        &mut signals,
        oscillator_part(candles, params, &macd_result, &stochastic_result),
        Ghost(times_of(candles@)),
        Ghost(times_of(candles@)),
    );
    extend(
        &mut signals,
        trend_part(
            candles,
            params,
            &bands,
            &strength,
            &macd_result,
            &stochastic_result,
            &supertrend_result,
            &adx_result,
            &cmf_result,
            &obv_result,
            &keltner_result,
        ),
        Ghost(times_of(candles@)),
        Ghost(times_of(candles@)),
    );
    extend(
        &mut signals,
        reversal_part(candles, params, &strength, &macd_result, &vwap_result, &sar_result),
        Ghost(times_of(candles@)),
        Ghost(times_of(candles@)),
    );
    proof {
        lemma_sorted_times_within(signal_views(signals@), times_of(candles@));
    }
    let signals = sort_signals(signals);

    AnalysisResponse {
        candles: copy_of(candles),
        bollinger_bands: bands,
        rsi: strength,
        signals,
        sma: sma_results,
        ema: ema_results,
        macd: macd_result,
        stochastic: stochastic_result,
        obv: obv_result,
        vwap: Some(vwap_result),
        atr: Some(atr_result),
        ichimoku: Some(ichimoku_result),
        supertrend: Some(supertrend_result),
        parabolic_sar: Some(sar_result),
        donchian: donchian_result,
        keltner: keltner_result,
        hma: hma_results,
        mfi: mfi_result,
        cmf: cmf_result,
        choppiness: choppiness_result,
        williams_r: willr_result,
        adx: adx_result,
        cvd: cvd_result,
        stc: stc_result,
        smc: smc_result,
        anchored_vwap: anchored_result,
        auto_fib: fib_result,
        symbol: params.symbol.clone(),
        interval: params.interval.clone(),
    }
}

} // verus!
