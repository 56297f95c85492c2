use crate::series::Timed;
use vstd::prelude::*;

verus! {

/// One point of the Bollinger bands.
#[derive(Debug, Clone, Copy)]
pub struct BollingerBandsPoint<V> {
    pub time: i64,
    pub upper: V,
    pub middle: V,
    pub lower: V,
}

impl<V> Timed for BollingerBandsPoint<V> {
    open spec fn time_spec(&self) -> i64 {
        self.time
    }

    fn time_of(&self) -> (t: i64) {
        self.time
    }
}

/// One point of the relative strength index.
#[derive(Debug, Clone, Copy)]
pub struct RsiPoint<V> {
    pub time: i64,
    pub value: V,
}

impl<V> Timed for RsiPoint<V> {
    open spec fn time_spec(&self) -> i64 {
        self.time
    }

    fn time_of(&self) -> (t: i64) {
        self.time
    }
}

/// One point of a moving average.
#[derive(Debug, Clone, Copy)]
pub struct MaPoint<V> {
    pub time: i64,
    pub value: V,
}

impl<V> Timed for MaPoint<V> {
    open spec fn time_spec(&self) -> i64 {
        self.time
    }

    fn time_of(&self) -> (t: i64) {
        self.time
    }
}

/// A moving average over `period` values.
#[derive(Debug, Clone)]
pub struct MovingAverageResult<V> {
    pub period: usize,
    pub data: Vec<MaPoint<V>>,
}

/// One point of MACD: the line, its signal line and their difference.
#[derive(Debug, Clone, Copy)]
pub struct MacdPoint<V> {
    pub time: i64,
    pub macd: V,
    pub signal: V,
    pub histogram: V,
}

impl<V> Timed for MacdPoint<V> {
    open spec fn time_spec(&self) -> i64 {
        self.time
    }

    fn time_of(&self) -> (t: i64) {
        self.time
    }
}

/// The MACD series.
#[derive(Debug, Clone)]
pub struct MacdResult<V> {
    pub data: Vec<MacdPoint<V>>,
}

/// One point of the stochastic oscillator: %K and %D.
#[derive(Debug, Clone, Copy)]
pub struct StochasticPoint<V> {
    pub time: i64,
    pub k: V,
    pub d: V,
}

impl<V> Timed for StochasticPoint<V> {
    open spec fn time_spec(&self) -> i64 {
        self.time
    }

    fn time_of(&self) -> (t: i64) {
        self.time
    }
}

/// The stochastic oscillator.
#[derive(Debug, Clone)]
pub struct StochasticResult<V> {
    pub data: Vec<StochasticPoint<V>>,
}

/// One point of the on-balance volume.
#[derive(Debug, Clone, Copy)]
pub struct ObvPoint<V> {
    pub time: i64,
    pub value: V,
}

impl<V> Timed for ObvPoint<V> {
    open spec fn time_spec(&self) -> i64 {
        self.time
    }

    fn time_of(&self) -> (t: i64) {
        self.time
    }
}

/// The on-balance volume.
#[derive(Debug, Clone)]
pub struct ObvResult<V> {
    pub data: Vec<ObvPoint<V>>,
}

/// One point of a volume-weighted average price.
#[derive(Debug, Clone, Copy)]
pub struct VwapPoint<V> {
    pub time: i64,
    pub value: V,
}

impl<V> Timed for VwapPoint<V> {
    open spec fn time_spec(&self) -> i64 {
        self.time
    }

    fn time_of(&self) -> (t: i64) {
        self.time
    }
}

/// A volume-weighted average price.
#[derive(Debug, Clone)]
pub struct VwapResult<V> {
    pub data: Vec<VwapPoint<V>>,
}

/// One point of the average true range.
#[derive(Debug, Clone, Copy)]
pub struct AtrPoint<V> {
    pub time: i64,
    pub value: V,
}

impl<V> Timed for AtrPoint<V> {
    open spec fn time_spec(&self) -> i64 {
        self.time
    }

    fn time_of(&self) -> (t: i64) {
        self.time
    }
}

/// The average true range over `period` candles.
#[derive(Debug, Clone)]
pub struct AtrResult<V> {
    pub period: usize,
    pub data: Vec<AtrPoint<V>>,
}

/// One candle's Ichimoku lines; a line is absent until its window has filled.
#[derive(Debug, Clone, Copy)]
pub struct IchimokuPoint<V> {
    pub time: i64,
    pub conversion: Option<V>,
    pub base: Option<V>,
    pub span_a: Option<V>,
    pub span_b: Option<V>,
    pub lagging: Option<V>,
}

impl<V> Timed for IchimokuPoint<V> {
    open spec fn time_spec(&self) -> i64 {
        self.time
    }

    fn time_of(&self) -> (t: i64) {
        self.time
    }
}

/// The Ichimoku lines, one point for each candle.
#[derive(Debug, Clone)]
pub struct IchimokuResult<V> {
    pub data: Vec<IchimokuPoint<V>>,
}

/// One point of the Supertrend line; `direction` is `1` in an uptrend and `-1` in a downtrend.
#[derive(Debug, Clone, Copy)]
pub struct SupertrendPoint<V> {
    pub time: i64,
    pub value: V,
    pub direction: i8,
}

impl<V> Timed for SupertrendPoint<V> {
    open spec fn time_spec(&self) -> i64 {
        self.time
    }

    fn time_of(&self) -> (t: i64) {
        self.time
    }
}

/// The Supertrend line over `period` candles, `multiplier` average true
/// ranges from the middle of the candle.
#[derive(Debug, Clone)]
pub struct SupertrendResult<V> {
    pub period: usize,
    pub multiplier: V,
    pub data: Vec<SupertrendPoint<V>>,
}

/// One point of the parabolic stop-and-reverse.
#[derive(Debug, Clone, Copy)]
pub struct ParabolicSarPoint<V> {
    pub time: i64,
    pub value: V,
}

impl<V> Timed for ParabolicSarPoint<V> {
    open spec fn time_spec(&self) -> i64 {
        self.time
    }

    fn time_of(&self) -> (t: i64) {
        self.time
    }
}

/// The parabolic stop-and-reverse with its acceleration `step` and the
/// greatest acceleration `max_step`.
#[derive(Debug, Clone)]
pub struct ParabolicSarResult<V> {
    pub step: V,
    pub max_step: V,
    pub data: Vec<ParabolicSarPoint<V>>,
}

/// One point of the Donchian channel.
#[derive(Debug, Clone, Copy)]
pub struct DonchianPoint<V> {
    pub time: i64,
    pub upper: V,
    pub middle: V,
    pub lower: V,
}

impl<V> Timed for DonchianPoint<V> {
    open spec fn time_spec(&self) -> i64 {
        self.time
    }

    fn time_of(&self) -> (t: i64) {
        self.time
    }
}

/// The Donchian channel over `period` candles.
#[derive(Debug, Clone)]
pub struct DonchianResult<V> {
    pub period: usize,
    pub data: Vec<DonchianPoint<V>>,
}

/// One point of the Keltner channel.
#[derive(Debug, Clone, Copy)]
pub struct KeltnerPoint<V> {
    pub time: i64,
    pub upper: V,
    pub middle: V,
    pub lower: V,
}

impl<V> Timed for KeltnerPoint<V> {
    open spec fn time_spec(&self) -> i64 {
        self.time
    }

    fn time_of(&self) -> (t: i64) {
        self.time
    }
}

/// The Keltner channel: the window of its middle line, the window of its
/// range, and its width in average true ranges.
#[derive(Debug, Clone)]
pub struct KeltnerResult<V> {
    pub ema_period: usize,
    pub atr_period: usize,
    pub atr_multiplier: V,
    pub data: Vec<KeltnerPoint<V>>,
}

/// One point of the money flow index.
#[derive(Debug, Clone, Copy)]
pub struct MfiPoint<V> {
    pub time: i64,
    pub value: V,
}

impl<V> Timed for MfiPoint<V> {
    open spec fn time_spec(&self) -> i64 {
        self.time
    }

    fn time_of(&self) -> (t: i64) {
        self.time
    }
}

/// The money flow index over `period` candles.
#[derive(Debug, Clone)]
pub struct MfiResult<V> {
    pub period: usize,
    pub data: Vec<MfiPoint<V>>,
}

/// One point of the Chaikin money flow.
#[derive(Debug, Clone, Copy)]
pub struct CmfPoint<V> {
    pub time: i64,
    pub value: V,
}

impl<V> Timed for CmfPoint<V> {
    open spec fn time_spec(&self) -> i64 {
        self.time
    }

    fn time_of(&self) -> (t: i64) {
        self.time
    }
}

/// The Chaikin money flow over `period` candles.
#[derive(Debug, Clone)]
pub struct CmfResult<V> {
    pub period: usize,
    pub data: Vec<CmfPoint<V>>,
}

/// One point of the choppiness index.
#[derive(Debug, Clone, Copy)]
pub struct ChoppinessPoint<V> {
    pub time: i64,
    pub value: V,
}

impl<V> Timed for ChoppinessPoint<V> {
    open spec fn time_spec(&self) -> i64 {
        self.time
    }

    fn time_of(&self) -> (t: i64) {
        self.time
    }
}

/// The choppiness index over `period` candles.
#[derive(Debug, Clone)]
pub struct ChoppinessResult<V> {
    pub period: usize,
    pub data: Vec<ChoppinessPoint<V>>,
}

/// One point of Williams %R.
#[derive(Debug, Clone, Copy)]
pub struct WillrPoint<V> {
    pub time: i64,
    pub value: V,
}

impl<V> Timed for WillrPoint<V> {
    open spec fn time_spec(&self) -> i64 {
        self.time
    }

    fn time_of(&self) -> (t: i64) {
        self.time
    }
}

/// Williams %R over `period` candles.
#[derive(Debug, Clone)]
pub struct WillrResult<V> {
    pub period: usize,
    pub data: Vec<WillrPoint<V>>,
}

/// One point of the average directional index, with the two directional indicators.
#[derive(Debug, Clone, Copy)]
pub struct AdxPoint<V> {
    pub time: i64,
    pub adx: V,
    pub plus_di: V,
    pub minus_di: V,
}

impl<V> Timed for AdxPoint<V> {
    open spec fn time_spec(&self) -> i64 {
        self.time
    }

    fn time_of(&self) -> (t: i64) {
        self.time
    }
}

/// The average directional index over `period` candles.
#[derive(Debug, Clone)]
pub struct AdxResult<V> {
    pub period: usize,
    pub data: Vec<AdxPoint<V>>,
}

/// One point of the cumulative volume delta.
#[derive(Debug, Clone, Copy)]
pub struct CvdPoint<V> {
    pub time: i64,
    pub value: V,
}

impl<V> Timed for CvdPoint<V> {
    open spec fn time_spec(&self) -> i64 {
        self.time
    }

    fn time_of(&self) -> (t: i64) {
        self.time
    }
}

/// The cumulative volume delta.
#[derive(Debug, Clone)]
pub struct CvdResult<V> {
    pub data: Vec<CvdPoint<V>>,
}

/// One point of the Schaff trend cycle.
#[derive(Debug, Clone, Copy)]
pub struct StcPoint<V> {
    pub time: i64,
    pub value: V,
}

impl<V> Timed for StcPoint<V> {
    open spec fn time_spec(&self) -> i64 {
        self.time
    }

    fn time_of(&self) -> (t: i64) {
        self.time
    }
}

/// The Schaff trend cycle with its cycle length and the two windows of
/// its MACD line.
#[derive(Debug, Clone)]
pub struct StcResult<V> {
    pub tc_len: usize,
    pub fast_ma: usize,
    pub slow_ma: usize,
    pub data: Vec<StcPoint<V>>,
}

/// A break of market structure: `event_type` is one of `bos_bull`,
/// `bos_bear`, `choch_bull` and `choch_bear`; `swing_time` and
/// `swing_price` are those of the swing that was broken.
#[derive(Debug, Clone)]
pub struct SmcEvent<V> {
    pub time: i64,
    pub event_type: String,
    pub price: V,
    pub swing_time: i64,
    pub swing_price: V,
}

impl<V> Timed for SmcEvent<V> {
    open spec fn time_spec(&self) -> i64 {
        self.time
    }

    fn time_of(&self) -> (t: i64) {
        self.time
    }
}

/// The breaks of market structure, in the order of their candles.
#[derive(Debug, Clone)]
pub struct SmcResult<V> {
    pub data: Vec<SmcEvent<V>>,
}

/// One Fibonacci level: the ratio and the price that it falls on.
#[derive(Debug, Clone, Copy)]
pub struct AutoFibLevel<V> {
    pub ratio: V,
    pub price: V,
}

/// The swing that the retracement is measured on, and its levels.
#[derive(Debug, Clone)]
pub struct AutoFibResult<V> {
    pub high_time: i64,
    pub high_price: V,
    pub low_time: i64,
    pub low_price: V,
    pub is_uptrend: bool,
    pub levels: Vec<AutoFibLevel<V>>,
}

} // verus!
