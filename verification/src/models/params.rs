use crate::scalar::Scalar;
use vstd::prelude::*;

verus! {

/// The market that a symbol trades on.
#[derive(Debug, Clone, Copy, PartialEq, Eq, Structural)]
pub enum MarketType {
    Crypto,
    Forex,
    UsStock,
    KrStock,
}

impl Default for MarketType {
    fn default() -> (r: Self)
        ensures
            r == MarketType::UsStock,
    {
        MarketType::UsStock
    }
}

/// The windows of MACD.
#[derive(Debug, Clone, Copy)]
pub struct MacdParams {
    pub fast_period: usize,
    pub slow_period: usize,
    pub signal_period: usize,
}

/// The windows of the stochastic oscillator.
#[derive(Debug, Clone, Copy)]
pub struct StochasticParams {
    pub k_period: usize,
    pub d_period: usize,
    pub smooth: usize,
}

/// The gates that the BB+RSI signals pass through.
#[derive(Debug, Clone, Copy)]
pub struct SignalFilterParams<V> {
    pub enabled: bool,
    pub apply_regime_filter: bool,
    pub apply_momentum_filter: bool,
    pub apply_volatility_filter: bool,
    pub regime_period: usize,
    pub regime_buffer: V,
    pub momentum_period: usize,
    pub min_momentum_for_buy: V,
    pub max_momentum_for_sell: V,
    pub volatility_period: usize,
    pub volatility_rank_period: usize,
    pub high_vol_percentile: V,
    pub keep_strong_counter_trend: bool,
    pub keep_strong_in_high_vol: bool,
}

/// The filter with every gate on and the customary thresholds.
pub open spec fn default_signal_filter<V: Scalar>() -> SignalFilterParams<V> {
    SignalFilterParams {
        enabled: true,
        apply_regime_filter: true,
        apply_momentum_filter: true,
        apply_volatility_filter: true,
        regime_period: 200,
        regime_buffer: V::from_ratio(2, 1000),
        momentum_period: 63,
        min_momentum_for_buy: V::from_ratio(-5i64, 100),
        max_momentum_for_sell: V::from_ratio(5, 100),
        volatility_period: 20,
        volatility_rank_period: 120,
        high_vol_percentile: V::from_ratio(90, 100),
        keep_strong_counter_trend: true,
        keep_strong_in_high_vol: true,
    }
}

impl<V: Scalar> Default for SignalFilterParams<V> {
    fn default() -> (r: Self)
        ensures
            r == default_signal_filter::<V>(),
    {
        Self {
            enabled: default_signal_filter_enabled(),
            apply_regime_filter: default_apply_regime_filter(),
            apply_momentum_filter: default_apply_momentum_filter(),
            apply_volatility_filter: default_apply_volatility_filter(),
            regime_period: default_regime_period(),
            regime_buffer: default_regime_buffer(),
            momentum_period: default_momentum_period(),
            min_momentum_for_buy: default_min_momentum_for_buy(),
            max_momentum_for_sell: default_max_momentum_for_sell(),
            volatility_period: default_volatility_period(),
            volatility_rank_period: default_volatility_rank_period(),
            high_vol_percentile: default_high_vol_percentile(),
            keep_strong_counter_trend: default_keep_strong_counter_trend(),
            keep_strong_in_high_vol: default_keep_strong_in_high_vol(),
        }
    }
}

/// The window of the Donchian channel.
#[derive(Debug, Clone, Copy)]
pub struct DonchianParams {
    pub period: usize,
}

/// The windows and the width of the Keltner channel.
#[derive(Debug, Clone, Copy)]
pub struct KeltnerParams<V> {
    pub ema_period: usize,
    pub atr_period: usize,
    pub atr_multiplier: V,
}

/// The window of the money flow index.
#[derive(Debug, Clone, Copy)]
pub struct MfiParams {
    pub period: usize,
}

/// The window of the Chaikin money flow.
#[derive(Debug, Clone, Copy)]
pub struct CmfParams {
    pub period: usize,
}

/// The window of the choppiness index.
#[derive(Debug, Clone, Copy)]
pub struct ChoppinessParams {
    pub period: usize,
}

/// The window of Williams %R.
#[derive(Debug, Clone, Copy)]
pub struct WillrParams {
    pub period: usize,
}

/// The window of the average directional index.
#[derive(Debug, Clone, Copy)]
pub struct AdxParams {
    pub period: usize,
}

/// The cycle length and the windows of the Schaff trend cycle.
#[derive(Debug, Clone, Copy)]
pub struct StcParams {
    pub tc_len: usize,
    pub fast_ma: usize,
    pub slow_ma: usize,
}

/// How many candles on either side make a swing of market structure.
#[derive(Debug, Clone, Copy)]
pub struct SmcParams {
    pub swing_length: usize,
}

/// The time from which the anchored average price runs.
#[derive(Debug, Clone, Copy)]
pub struct AnchoredVwapParams {
    pub anchor_time: i64,
}

/// How many candles the retracement looks back on, and how many on
/// either side make a swing.
#[derive(Debug, Clone, Copy)]
pub struct AutoFibParams {
    pub lookback: usize,
    pub swing_length: usize,
}

/// Which of the quant strategies emit signals, and the windows of those
/// that have windows of their own.
#[derive(Debug, Clone, Copy)]
pub struct SignalStrategyParams {
    pub supertrend_adx: bool,
    pub ema_crossover: bool,
    pub ema_fast_period: usize,
    pub ema_slow_period: usize,
    pub stoch_rsi_combined: bool,
    pub cmf_obv: bool,
    pub ttm_squeeze: bool,
    pub vwap_breakout: bool,
    pub parabolic_sar: bool,
    pub macd_hist_reversal: bool,
    pub ibs_mean_reversion: bool,
    pub rsi_divergence: bool,
    pub divergence_swing_length: usize,
}

/// What an analysis is asked to compute.
#[derive(Debug, Clone)]
pub struct AnalysisParams<V> {
    pub symbol: String,
    pub interval: String,
    pub bb_period: usize,
    pub bb_multiplier: V,
    pub rsi_period: usize,
    pub market: MarketType,
    pub sma_periods: Vec<usize>,
    pub ema_periods: Vec<usize>,
    pub hma_periods: Vec<usize>,
    pub macd: Option<MacdParams>,
    pub stochastic: Option<StochasticParams>,
    pub show_volume: bool,
    pub show_obv: bool,
    pub show_cvd: bool,
    pub donchian: Option<DonchianParams>,
    pub keltner: Option<KeltnerParams<V>>,
    pub mfi: Option<MfiParams>,
    pub cmf: Option<CmfParams>,
    pub choppiness: Option<ChoppinessParams>,
    pub williams_r: Option<WillrParams>,
    pub adx: Option<AdxParams>,
    pub stc: Option<StcParams>,
    pub smc: Option<SmcParams>,
    pub anchored_vwap: Option<AnchoredVwapParams>,
    pub auto_fib: Option<AutoFibParams>,
    pub signal_filter: SignalFilterParams<V>,
    pub signal_strategies: SignalStrategyParams,
}

/// The Bollinger window.
pub fn default_bb_period() -> (r: usize)
    ensures
        r == 20,
{
    20
}

/// The RSI window.
pub fn default_rsi_period() -> (r: usize)
    ensures
        r == 14,
{
    14
}

/// MACD's fast window.
pub fn default_macd_fast() -> (r: usize)
    ensures
        r == 12,
{
    12
}

/// MACD's slow window.
pub fn default_macd_slow() -> (r: usize)
    ensures
        r == 26,
{
    26
}

/// The window of MACD's signal line.
pub fn default_macd_signal() -> (r: usize)
    ensures
        r == 9,
{
    9
}

/// The stochastic look-back.
pub fn default_stoch_k() -> (r: usize)
    ensures
        r == 14,
{
    14
}

/// The window of the stochastic %D.
pub fn default_stoch_d() -> (r: usize)
    ensures
        r == 3,
{
    3
}

/// The smoothing of the stochastic %K.
pub fn default_stoch_smooth() -> (r: usize)
    ensures
        r == 3,
{
    3
}

/// The window of the regime average.
pub fn default_regime_period() -> (r: usize)
    ensures
        r == 200,
{
    200
}

/// The look-back of the momentum gate.
pub fn default_momentum_period() -> (r: usize)
    ensures
        r == 63,
{
    63
}

/// The window of the rolling volatility.
pub fn default_volatility_period() -> (r: usize)
    ensures
        r == 20,
{
    20
}

/// The window in which volatility is ranked.
pub fn default_volatility_rank_period() -> (r: usize)
    ensures
        r == 120,
{
    120
}

/// The Donchian window.
pub fn default_donchian_period() -> (r: usize)
    ensures
        r == 20,
{
    20
}

/// The window of Keltner's middle line.
pub fn default_keltner_ema_period() -> (r: usize)
    ensures
        r == 20,
{
    20
}

/// The window of Keltner's range.
pub fn default_keltner_atr_period() -> (r: usize)
    ensures
        r == 10,
{
    10
}

/// The MFI window.
pub fn default_mfi_period() -> (r: usize)
    ensures
        r == 14,
{
    14
}

/// The CMF window.
pub fn default_cmf_period() -> (r: usize)
    ensures
        r == 20,
{
    20
}

/// The choppiness window.
pub fn default_choppiness_period() -> (r: usize)
    ensures
        r == 14,
{
    14
}

/// The Williams %R window.
pub fn default_willr_period() -> (r: usize)
    ensures
        r == 14,
{
    14
}

/// The ADX window.
pub fn default_adx_period() -> (r: usize)
    ensures
        r == 14,
{
    14
}

/// The cycle length of STC.
pub fn default_stc_tc_len() -> (r: usize)
    ensures
        r == 10,
{
    10
}

/// STC's fast window.
pub fn default_stc_fast_ma() -> (r: usize)
    ensures
        r == 23,
{
    23
}

/// STC's slow window.
pub fn default_stc_slow_ma() -> (r: usize)
    ensures
        r == 50,
{
    50
}

/// The bars on each side of a structure swing.
pub fn default_smc_swing_length() -> (r: usize)
    ensures
        r == 5,
{
    5
}

/// The bars that the Fibonacci scan covers.
pub fn default_auto_fib_lookback() -> (r: usize)
    ensures
        r == 120,
{
    120
}

/// The bars on each side of a Fibonacci swing.
pub fn default_auto_fib_swing_length() -> (r: usize)
    ensures
        r == 5,
{
    5
}

/// The quant filter is on.
pub fn default_signal_filter_enabled() -> (r: bool)
    ensures
        r,
{
    true
}

/// The regime gate is on.
pub fn default_apply_regime_filter() -> (r: bool)
    ensures
        r,
{
    true
}

/// The momentum gate is on.
pub fn default_apply_momentum_filter() -> (r: bool)
    ensures
        r,
{
    true
}

/// The volatility gate is on.
pub fn default_apply_volatility_filter() -> (r: bool)
    ensures
        r,
{
    true
}

/// Strong signals pass the regime and momentum gates.
pub fn default_keep_strong_counter_trend() -> (r: bool)
    ensures
        r,
{
    true
}

/// Strong signals pass the volatility gate.
pub fn default_keep_strong_in_high_vol() -> (r: bool)
    ensures
        r,
{
    true
}

/// The width of the Bollinger bands, in standard deviations.
pub fn default_bb_multiplier<V: Scalar>() -> (r: V)
    ensures
        r == V::from_ratio(2, 1),
{
    V::from_ratio(2, 1)
}

/// The distance from the regime average that counts as neutral.
pub fn default_regime_buffer<V: Scalar>() -> (r: V)
    ensures
        r == V::from_ratio(2, 1000),
{
    V::from_ratio(2, 1000)
}

/// The least momentum at which a buy passes.
pub fn default_min_momentum_for_buy<V: Scalar>() -> (r: V)
    ensures
        r == V::from_ratio(-5i64, 100),
{
    V::from_ratio(-5i64, 100)
}

/// The greatest momentum at which a sell passes.
pub fn default_max_momentum_for_sell<V: Scalar>() -> (r: V)
    ensures
        r == V::from_ratio(5, 100),
{
    V::from_ratio(5, 100)
}

/// The volatility rank from which signals are rejected.
pub fn default_high_vol_percentile<V: Scalar>() -> (r: V)
    ensures
        r == V::from_ratio(90, 100),
{
    V::from_ratio(90, 100)
}

/// The width of the Keltner channel, in average true ranges.
pub fn default_keltner_atr_multiplier<V: Scalar>() -> (r: V)
    ensures
        r == V::from_ratio(2, 1),
{
    V::from_ratio(2, 1)
}

} // verus!
