use crate::models::candle::Candle;
use crate::models::indicator::{
    AdxResult, AtrResult, AutoFibResult, BollingerBandsPoint, ChoppinessResult, CmfResult,
    CvdResult, DonchianResult, IchimokuResult, KeltnerResult, MacdResult, MfiResult,
    MovingAverageResult, ObvResult, ParabolicSarResult, RsiPoint, SmcResult, StcResult,
    StochasticResult, SupertrendResult, VwapResult, WillrResult,
};
use crate::models::signal::SignalPoint;
use vstd::prelude::*;

verus! {

/// What an analysis returns: the candles it was made of, every series
/// that was asked for, and the signals in the order of their times. A
/// series that was not asked for is `None`.
#[derive(Debug, Clone)]
pub struct AnalysisResponse<V> {
    pub candles: Vec<Candle<V>>,
    pub bollinger_bands: Vec<BollingerBandsPoint<V>>,
    pub rsi: Vec<RsiPoint<V>>,
    pub signals: Vec<SignalPoint<V>>,
    pub sma: Vec<MovingAverageResult<V>>,
    pub ema: Vec<MovingAverageResult<V>>,
    pub macd: Option<MacdResult<V>>,
    pub stochastic: Option<StochasticResult<V>>,
    pub obv: Option<ObvResult<V>>,
    pub vwap: Option<VwapResult<V>>,
    pub atr: Option<AtrResult<V>>,
    pub ichimoku: Option<IchimokuResult<V>>,
    pub supertrend: Option<SupertrendResult<V>>,
    pub parabolic_sar: Option<ParabolicSarResult<V>>,
    pub donchian: Option<DonchianResult<V>>,
    pub keltner: Option<KeltnerResult<V>>,
    pub hma: Vec<MovingAverageResult<V>>,
    pub mfi: Option<MfiResult<V>>,
    pub cmf: Option<CmfResult<V>>,
    pub choppiness: Option<ChoppinessResult<V>>,
    pub williams_r: Option<WillrResult<V>>,
    pub adx: Option<AdxResult<V>>,
    pub cvd: Option<CvdResult<V>>,
    pub stc: Option<StcResult<V>>,
    pub smc: Option<SmcResult<V>>,
    pub anchored_vwap: Option<VwapResult<V>>,
    pub auto_fib: Option<AutoFibResult<V>>,
    pub symbol: String,
    pub interval: String,
}

} // verus!
