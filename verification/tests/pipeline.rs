use ta_engine::cache::{cache_key, fresh_data, ttl_seconds, CacheDb};
use ta_engine::models::candle::Candle;
use ta_engine::models::params::{
    AdxParams, AnalysisParams, AnchoredVwapParams, AutoFibParams, ChoppinessParams, CmfParams,
    DonchianParams, KeltnerParams, MacdParams, MarketType, MfiParams, SignalFilterParams,
    SignalStrategyParams, SmcParams, StcParams, StochasticParams, WillrParams,
};
use ta_engine::models::signal::{SignalPoint, SignalType};
use ta_engine::models::strategy::empty_premarket;
use ta_engine::models::watchlist::{
    watchlist_snapshot, watchlist_snapshots, WatchlistItemRequest,
};
use ta_engine::plan::{resolve_interval_plan, IntervalPlan};
use ta_engine::providers::{chart_candles, kline_candles, ChartError, ChartRow};
use ta_engine::resample::resample_candles;
use ta_engine::scalar::{clamp, negligible, whole, Scalar};
use ta_engine::ta_engine::{analyze, auto_fib, smc};

#[derive(Clone, Copy, Debug, PartialEq)]
struct F(f64);

impl Scalar for F {
    fn from_count_spec(_: usize) -> Self {
        unreachable!()
    }
    fn from_ratio_spec(_: i64, _: i64) -> Self {
        unreachable!()
    }
    fn epsilon_spec() -> Self {
        unreachable!()
    }
    fn infinity_spec() -> Self {
        unreachable!()
    }
    fn neg_infinity_spec() -> Self {
        unreachable!()
    }
    fn lowest_spec() -> Self {
        unreachable!()
    }
    fn highest_spec() -> Self {
        unreachable!()
    }
    fn plus_spec(self, _: Self) -> Self {
        unreachable!()
    }
    fn minus_spec(self, _: Self) -> Self {
        unreachable!()
    }
    fn times_spec(self, _: Self) -> Self {
        unreachable!()
    }
    fn over_spec(self, _: Self) -> Self {
        unreachable!()
    }
    fn negated_spec(self) -> Self {
        unreachable!()
    }
    fn magnitude_spec(self) -> Self {
        unreachable!()
    }
    fn root_spec(self) -> Self {
        unreachable!()
    }
    fn ln_spec(self) -> Self {
        unreachable!()
    }
    fn log10_spec(self) -> Self {
        unreachable!()
    }
    fn larger_spec(self, _: Self) -> Self {
        unreachable!()
    }
    fn smaller_spec(self, _: Self) -> Self {
        unreachable!()
    }
    fn below_spec(self, _: Self) -> bool {
        unreachable!()
    }
    fn at_most_spec(self, _: Self) -> bool {
        unreachable!()
    }
    fn same_spec(self, _: Self) -> bool {
        unreachable!()
    }
    fn from_count(n: usize) -> Self {
        F(n as f64)
    }
    fn from_ratio(num: i64, den: i64) -> Self {
        F(num as f64 / den as f64)
    }
    fn epsilon() -> Self {
        F(f64::EPSILON)
    }
    fn infinity() -> Self {
        F(f64::INFINITY)
    }
    fn neg_infinity() -> Self {
        F(f64::NEG_INFINITY)
    }
    fn lowest() -> Self {
        F(f64::MIN)
    }
    fn highest() -> Self {
        F(f64::MAX)
    }
    fn plus(self, rhs: Self) -> Self {
        F(self.0 + rhs.0)
    }
    fn minus(self, rhs: Self) -> Self {
        F(self.0 - rhs.0)
    }
    fn times(self, rhs: Self) -> Self {
        F(self.0 * rhs.0)
    }
    fn over(self, rhs: Self) -> Self {
        F(self.0 / rhs.0)
    }
    fn negated(self) -> Self {
        F(-self.0)
    }
    fn magnitude(self) -> Self {
        F(self.0.abs())
    }
    fn root(self) -> Self {
        F(self.0.sqrt())
    }
    fn ln(self) -> Self {
        F(self.0.ln())
    }
    fn log10(self) -> Self {
        F(self.0.log10())
    }
    fn larger(self, rhs: Self) -> Self {
        F(self.0.max(rhs.0))
    }
    fn smaller(self, rhs: Self) -> Self {
        F(self.0.min(rhs.0))
    }
    fn below(self, rhs: Self) -> bool {
        self.0 < rhs.0
    }
    fn at_most(self, rhs: Self) -> bool {
        self.0 <= rhs.0
    }
    fn same(self, rhs: Self) -> bool {
        self.0 == rhs.0
    }
}

fn candle(time: i64, open: f64, high: f64, low: f64, close: f64, volume: f64) -> Candle<F> {
    Candle { time, open: F(open), high: F(high), low: F(low), close: F(close), volume: F(volume) }
}

type Found = (i64, SignalType, f64, f64, &'static str);

fn found(signals: &[SignalPoint<F>]) -> Vec<(i64, SignalType, f64, f64, String)> {
    signals.iter().map(|s| (s.time, s.signal_type, s.price.0, s.rsi.0, s.source.clone())).collect()
}

fn expect(signals: &[SignalPoint<F>], wanted: Vec<Found>) {
    let wanted: Vec<(i64, SignalType, f64, f64, String)> =
        wanted.into_iter().map(|(t, k, p, r, s)| (t, k, p, r, s.to_string())).collect();
    assert_eq!(found(signals), wanted);
}

fn ohlcv(c: &Candle<F>) -> (i64, f64, f64, f64, f64, f64) {
    (c.time, c.open.0, c.high.0, c.low.0, c.close.0, c.volume.0)
}

fn plan(requested: &str, source: &str, factor: u32, needs_resample: bool) -> IntervalPlan {
    IntervalPlan {
        requested: requested.to_string(),
        source: source.to_string(),
        factor,
        needs_resample,
    }
}

fn gates() -> SignalFilterParams<F> {
    SignalFilterParams {
        enabled: true,
        apply_regime_filter: true,
        apply_momentum_filter: true,
        apply_volatility_filter: true,
        regime_period: 10,
        regime_buffer: F(0.002),
        momentum_period: 5,
        min_momentum_for_buy: F(-0.05),
        max_momentum_for_sell: F(0.05),
        volatility_period: 5,
        volatility_rank_period: 20,
        high_vol_percentile: F(0.9),
        keep_strong_counter_trend: true,
        keep_strong_in_high_vol: true,
    }
}

fn nothing_on() -> SignalStrategyParams {
    SignalStrategyParams {
        supertrend_adx: false,
        ema_crossover: false,
        ema_fast_period: 0,
        ema_slow_period: 0,
        stoch_rsi_combined: false,
        cmf_obv: false,
        ttm_squeeze: false,
        vwap_breakout: false,
        parabolic_sar: false,
        macd_hist_reversal: false,
        ibs_mean_reversion: false,
        rsi_divergence: false,
        divergence_swing_length: 0,
    }
}

fn everything_on() -> SignalStrategyParams {
    SignalStrategyParams {
        supertrend_adx: true,
        ema_crossover: true,
        ema_fast_period: 3,
        ema_slow_period: 7,
        stoch_rsi_combined: true,
        cmf_obv: true,
        ttm_squeeze: true,
        vwap_breakout: true,
        parabolic_sar: true,
        macd_hist_reversal: true,
        ibs_mean_reversion: true,
        rsi_divergence: true,
        divergence_swing_length: 2,
    }
}

fn plain() -> AnalysisParams<F> {
    AnalysisParams {
        symbol: "BTCUSDT".to_string(),
        interval: "15m".to_string(),
        bb_period: 5,
        bb_multiplier: F(1.0),
        rsi_period: 3,
        market: MarketType::Crypto,
        sma_periods: vec![],
        ema_periods: vec![],
        hma_periods: vec![],
        macd: None,
        stochastic: None,
        show_volume: false,
        show_obv: false,
        show_cvd: false,
        donchian: None,
        keltner: None,
        mfi: None,
        cmf: None,
        choppiness: None,
        williams_r: None,
        adx: None,
        stc: None,
        smc: None,
        anchored_vwap: None,
        auto_fib: None,
        signal_filter: gates(),
        signal_strategies: nothing_on(),
    }
}

fn full() -> AnalysisParams<F> {
    AnalysisParams {
        sma_periods: vec![3, 10, 0],
        ema_periods: vec![4],
        hma_periods: vec![9, 1],
        macd: Some(MacdParams { fast_period: 3, slow_period: 6, signal_period: 4 }),
        stochastic: Some(StochasticParams { k_period: 5, d_period: 3, smooth: 3 }),
        show_volume: true,
        show_obv: true,
        show_cvd: true,
        donchian: Some(DonchianParams { period: 20 }),
        keltner: Some(KeltnerParams { ema_period: 5, atr_period: 5, atr_multiplier: F(1.0) }),
        mfi: Some(MfiParams { period: 14 }),
        cmf: Some(CmfParams { period: 5 }),
        choppiness: Some(ChoppinessParams { period: 14 }),
        williams_r: Some(WillrParams { period: 14 }),
        adx: Some(AdxParams { period: 5 }),
        stc: Some(StcParams { tc_len: 3, fast_ma: 4, slow_ma: 8 }),
        smc: Some(SmcParams { swing_length: 2 }),
        anchored_vwap: Some(AnchoredVwapParams { anchor_time: 1_700_009_000 }),
        auto_fib: Some(AutoFibParams { lookback: 40, swing_length: 2 }),
        signal_strategies: everything_on(),
        ..plain()
    }
}
fn rising() -> Vec<Candle<F>> {
    vec![
        candle(1700000000, 106.0, 110.5, 105.25, 109.5, 1000.0),
        candle(1700003600, 99.25, 102.25, 98.25, 100.75, 1225.0),
        candle(1700007200, 99.5, 101.5, 97.75, 99.0, 1450.0),
        candle(1700010800, 114.75, 115.75, 110.75, 112.25, 1675.0),
        candle(1700014400, 104.0, 109.0, 103.25, 107.5, 1600.0),
        candle(1700018000, 100.75, 104.25, 99.75, 102.25, 1825.0),
        candle(1700021600, 112.0, 113.0, 110.25, 111.5, 1150.0),
        candle(1700025200, 121.0, 122.5, 117.0, 118.5, 1375.0),
        candle(1700028800, 121.25, 126.75, 120.5, 124.75, 1300.0),
        candle(1700032400, 136.5, 139.0, 135.5, 138.0, 1525.0),
        candle(1700036000, 118.25, 119.75, 116.5, 117.75, 1750.0),
        candle(1700039600, 122.5, 124.5, 118.5, 120.0, 1975.0),
        candle(1700043200, 133.75, 138.25, 133.0, 137.25, 1000.0),
        candle(1700046800, 127.0, 130.0, 126.0, 128.5, 1225.0),
        candle(1700050400, 143.0, 145.0, 141.25, 142.5, 1450.0),
        candle(1700054000, 150.75, 151.75, 146.75, 148.25, 1675.0),
        candle(1700057600, 140.0, 145.0, 139.25, 143.5, 1600.0),
        candle(1700061200, 144.25, 147.75, 143.25, 145.75, 1825.0),
        candle(1700064800, 155.5, 156.5, 153.75, 155.0, 1150.0),
        candle(1700068400, 148.75, 150.25, 144.75, 146.25, 1375.0),
        candle(1700072000, 141.5, 147.0, 140.75, 145.0, 1300.0),
        candle(1700075600, 172.5, 175.0, 171.5, 174.0, 1525.0),
        candle(1700079200, 161.75, 163.25, 160.0, 161.25, 1750.0),
        candle(1700082800, 166.0, 168.0, 162.0, 163.5, 1975.0),
        candle(1700086400, 177.25, 181.75, 176.5, 180.75, 1000.0),
        candle(1700090000, 163.0, 166.0, 162.0, 164.5, 1225.0),
        candle(1700093600, 163.25, 165.25, 161.5, 162.75, 1450.0),
        candle(1700097200, 178.5, 179.5, 174.5, 176.0, 1675.0),
        candle(1700100800, 183.5, 188.5, 182.75, 187.0, 1600.0),
        candle(1700104400, 187.75, 191.25, 186.75, 189.25, 1825.0),
        candle(1700108000, 191.5, 192.5, 189.75, 191.0, 1150.0),
        candle(1700111600, 184.75, 186.25, 180.75, 182.25, 1375.0),
        candle(1700115200, 185.0, 190.5, 184.25, 188.5, 1300.0),
        candle(1700118800, 200.25, 202.75, 199.25, 201.75, 1525.0),
        candle(1700122400, 189.5, 191.0, 187.75, 189.0, 1750.0),
        candle(1700126000, 202.0, 204.0, 198.0, 199.5, 1975.0),
        candle(1700129600, 213.25, 217.75, 212.5, 216.75, 1000.0),
        candle(1700133200, 206.5, 209.5, 205.5, 208.0, 1225.0),
        candle(1700136800, 206.75, 208.75, 205.0, 206.25, 1450.0),
        candle(1700140400, 222.0, 223.0, 218.0, 219.5, 1675.0),
        candle(1700144000, 203.75, 208.75, 203.0, 207.25, 1600.0),
        candle(1700147600, 208.0, 211.5, 207.0, 209.5, 1825.0),
        candle(1700151200, 235.0, 236.0, 233.25, 234.5, 1150.0),
        candle(1700154800, 228.25, 229.75, 224.25, 225.75, 1375.0),
        candle(1700158400, 228.5, 234.0, 227.75, 232.0, 1300.0),
        candle(1700162000, 236.25, 238.75, 235.25, 237.75, 1525.0),
        candle(1700165600, 225.5, 227.0, 223.75, 225.0, 1750.0),
        candle(1700169200, 229.75, 231.75, 225.75, 227.25, 1975.0),
        candle(1700172800, 241.0, 245.5, 240.25, 244.5, 1000.0),
        candle(1700176400, 250.0, 253.0, 249.0, 251.5, 1225.0),
        candle(1700180000, 242.75, 244.75, 241.0, 242.25, 1450.0),
        candle(1700183600, 258.0, 259.0, 254.0, 255.5, 1675.0),
        candle(1700187200, 247.25, 252.25, 246.5, 250.75, 1600.0),
        candle(1700190800, 251.5, 255.0, 250.5, 253.0, 1825.0),
        candle(1700194400, 262.75, 263.75, 261.0, 262.25, 1150.0),
        candle(1700198000, 248.5, 250.0, 244.5, 246.0, 1375.0),
        candle(1700201600, 264.5, 270.0, 263.75, 268.0, 1300.0),
        candle(1700205200, 279.75, 282.25, 278.75, 281.25, 1525.0),
        candle(1700208800, 269.0, 270.5, 267.25, 268.5, 1750.0),
        candle(1700212400, 273.25, 275.25, 269.25, 270.75, 1975.0),
    ]
}

fn swinging() -> Vec<Candle<F>> {
    vec![
        candle(1700000000, 93.51, 100.4, 93.21, 100.0, 3500.0),
        candle(1700000900, 100.0, 107.19, 99.5, 106.49, 1120.0),
        candle(1700001800, 106.49, 112.81, 105.79, 111.81, 1240.0),
        candle(1700002700, 111.81, 115.53, 110.91, 115.13, 1360.0),
        candle(1700003600, 115.13, 116.87, 114.83, 116.17, 1480.0),
        candle(1700004500, 116.17, 117.17, 114.73, 115.23, 1000.0),
        candle(1700005400, 115.23, 115.63, 112.37, 113.07, 1120.0),
        candle(1700006300, 113.07, 113.77, 109.72, 110.62, 1240.0),
        candle(1700007200, 110.62, 111.62, 108.34, 108.64, 1360.0),
        candle(1700008100, 108.64, 109.04, 106.99, 107.49, 1480.0),
        candle(1700009000, 107.49, 108.19, 106.33, 107.03, 1000.0),
        candle(1700009900, 107.03, 108.03, 105.76, 106.66, 3620.0),
        candle(1700010800, 106.66, 107.06, 105.32, 105.62, 1240.0),
        candle(1700011700, 105.62, 106.32, 102.77, 103.27, 1360.0),
        candle(1700012600, 103.27, 104.27, 98.68, 99.38, 1480.0),
        candle(1700013500, 99.38, 99.78, 93.35, 94.25, 1000.0),
        candle(1700014400, 94.25, 94.95, 88.41, 88.71, 1120.0),
        candle(1700015300, 88.71, 89.71, 83.36, 83.86, 1240.0),
        candle(1700016200, 83.86, 84.26, 80.05, 80.75, 1360.0),
        candle(1700017100, 80.75, 81.45, 79.19, 80.09, 1480.0),
        candle(1700018000, 80.09, 83.02, 79.79, 82.02, 1000.0),
        candle(1700018900, 82.02, 86.46, 81.52, 86.06, 1120.0),
        candle(1700019800, 86.06, 91.95, 85.36, 91.25, 3740.0),
        candle(1700020700, 91.25, 97.48, 90.35, 96.48, 1360.0),
        candle(1700021600, 96.48, 101.21, 96.18, 100.81, 1480.0),
        candle(1700022500, 100.81, 104.42, 100.31, 103.72, 1000.0),
        candle(1700023400, 103.72, 106.24, 103.02, 105.24, 1120.0),
        candle(1700024300, 105.24, 106.28, 104.34, 105.88, 1240.0),
        candle(1700025200, 105.88, 107.1, 105.58, 106.4, 1360.0),
        candle(1700026100, 106.4, 108.47, 105.9, 107.47, 1480.0),
        candle(1700027000, 107.47, 109.81, 106.77, 109.41, 1000.0),
        candle(1700027900, 109.41, 112.74, 108.51, 112.04, 1120.0),
        candle(1700028800, 112.04, 115.71, 111.74, 114.71, 1240.0),
        candle(1700029700, 114.71, 116.9, 114.21, 116.5, 3860.0),
        candle(1700030600, 116.5, 117.24, 115.8, 116.54, 1480.0),
        candle(1700031500, 116.54, 117.54, 113.4, 114.3, 1000.0),
        candle(1700032400, 114.3, 114.7, 109.52, 109.82, 1120.0),
        candle(1700033300, 109.82, 110.52, 103.23, 103.73, 1240.0),
        candle(1700034200, 103.73, 104.73, 96.4, 97.1, 1360.0),
        candle(1700035100, 97.1, 97.5, 90.24, 91.14, 1480.0),
        candle(1700036000, 91.14, 91.84, 86.54, 86.84, 1000.0),
        candle(1700036900, 86.84, 87.84, 84.23, 84.73, 1120.0),
        candle(1700037800, 84.73, 85.13, 84.03, 84.73, 1240.0),
        candle(1700038700, 84.73, 86.95, 83.83, 86.25, 1360.0),
        candle(1700039600, 86.25, 89.41, 85.95, 88.41, 3980.0),
        candle(1700040500, 88.41, 90.75, 87.91, 90.35, 1000.0),
        candle(1700041400, 90.35, 92.26, 89.65, 91.56, 1120.0),
        candle(1700042300, 91.56, 93.0, 90.66, 92.0, 1240.0),
        candle(1700043200, 92.0, 92.55, 91.7, 92.15, 1360.0),
        candle(1700044100, 92.15, 93.42, 91.65, 92.72, 1480.0),
        candle(1700045000, 92.72, 95.47, 92.02, 94.47, 1000.0),
        candle(1700045900, 94.47, 98.2, 93.57, 97.8, 1120.0),
        candle(1700046800, 97.8, 103.32, 97.5, 102.62, 1240.0),
        candle(1700047700, 102.62, 109.29, 102.12, 108.29, 1360.0),
        candle(1700048600, 108.29, 114.17, 107.59, 113.77, 1480.0),
        candle(1700049500, 113.77, 118.62, 112.87, 117.92, 3500.0),
        candle(1700050400, 117.92, 120.85, 117.62, 119.85, 1120.0),
        candle(1700051300, 119.85, 120.25, 118.69, 119.19, 1240.0),
        candle(1700052200, 119.19, 119.89, 115.45, 116.15, 1360.0),
        candle(1700053100, 116.15, 117.15, 110.63, 111.53, 1480.0),
        candle(1700054000, 111.53, 111.93, 106.1, 106.4, 1000.0),
        candle(1700054900, 106.4, 107.1, 101.28, 101.78, 1120.0),
        candle(1700055800, 101.78, 102.78, 97.69, 98.39, 1240.0),
        candle(1700056700, 98.39, 98.79, 95.48, 96.38, 1360.0),
        candle(1700057600, 96.38, 97.08, 95.12, 95.42, 1480.0),
        candle(1700058500, 95.42, 96.42, 94.32, 94.82, 1000.0),
        candle(1700059400, 94.82, 95.22, 93.13, 93.83, 3620.0),
        candle(1700060300, 93.83, 94.53, 91.1, 92.0, 1240.0),
        candle(1700061200, 92.0, 93.0, 89.0, 89.3, 1360.0),
        candle(1700062100, 89.3, 89.7, 85.76, 86.26, 1480.0),
        candle(1700063000, 86.26, 86.96, 83.02, 83.72, 1000.0),
        candle(1700063900, 83.72, 84.72, 81.74, 82.64, 1120.0),
        candle(1700064800, 82.64, 84.14, 82.34, 83.74, 1240.0),
        candle(1700065700, 83.74, 87.92, 83.24, 87.22, 1360.0),
        candle(1700066600, 87.22, 93.67, 86.52, 92.67, 1480.0),
        candle(1700067500, 92.67, 99.58, 91.77, 99.18, 1000.0),
        candle(1700068400, 99.18, 106.26, 98.88, 105.56, 1120.0),
        candle(1700069300, 105.56, 111.68, 105.06, 110.68, 3740.0),
        candle(1700070200, 110.68, 114.21, 109.98, 113.81, 1360.0),
        candle(1700071100, 113.81, 115.49, 112.91, 114.79, 1480.0),
    ]
}

#[test]
fn four_hourly_candles_make_one_of_four_hours() {
    let candles = vec![
        candle(14_400, 1.0, 2.0, 0.5, 1.5, 10.0),
        candle(18_000, 1.5, 3.0, 1.0, 2.0, 20.0),
        candle(21_600, 2.0, 2.5, 1.5, 2.2, 15.0),
        candle(25_200, 2.2, 2.8, 2.0, 2.6, 25.0),
    ];
    let r = resample_candles(&candles, &plan("4h", "1h", 4, true));
    assert_eq!(r.iter().map(ohlcv).collect::<Vec<_>>(), vec![(14_400, 1.0, 3.0, 0.5, 2.6, 70.0)]);
}

#[test]
fn resampling_opens_a_bucket_where_the_time_leaves_the_last() {
    let candles = vec![
        candle(3_700, 1.0, 2.0, 0.5, 1.5, 10.0),
        candle(7_200, 1.5, 3.0, 1.0, 2.0, 20.0),
        candle(10_800, 2.0, 2.5, 0.25, 2.2, 15.0),
        candle(14_399, 2.2, 2.8, 2.0, 2.6, 25.0),
        candle(14_400, 3.0, 3.5, 2.5, 3.2, 5.0),
        candle(-1, 9.0, 9.5, 8.5, 9.2, 7.0),
        candle(-7_200, 8.0, 8.5, 7.5, 8.2, 3.0),
    ];
    let r = resample_candles(&candles, &plan("2h", "1h", 2, true));
    assert_eq!(
        r.iter().map(ohlcv).collect::<Vec<_>>(),
        vec![
            (0, 1.0, 2.0, 0.5, 1.5, 10.0),
            (7_200, 1.5, 3.0, 0.25, 2.6, 60.0),
            (14_400, 3.0, 3.5, 2.5, 3.2, 5.0),
            (-7_200, 9.0, 9.5, 7.5, 8.2, 10.0),
        ]
    );
    let total: f64 = r.iter().map(|c| c.volume.0).sum();
    assert_eq!(total, candles.iter().map(|c| c.volume.0).sum::<f64>());
}

#[test]
fn resampling_passes_candles_through_where_the_plan_asks_for_none() {
    let candles = vec![candle(10, 1.0, 2.0, 0.5, 1.5, 10.0), candle(20, 1.5, 3.0, 1.0, 2.0, 20.0)];
    let same = resample_candles(&candles, &plan("1h", "1h", 1, false));
    assert_eq!(same.iter().map(ohlcv).collect::<Vec<_>>(), candles.iter().map(ohlcv).collect::<Vec<_>>());
    let same = resample_candles(&candles, &plan("soon", "1h", 1, true));
    assert_eq!(same.iter().map(ohlcv).collect::<Vec<_>>(), candles.iter().map(ohlcv).collect::<Vec<_>>());
    assert!(resample_candles(&candles[..0], &plan("4h", "1h", 4, true)).is_empty());
}

#[test]
fn a_plan_and_its_resampling_fit_together() {
    let p = resolve_interval_plan("45m", &MarketType::UsStock);
    assert_eq!((p.source.as_str(), p.factor, p.needs_resample), ("15m", 3, true));
    let candles: Vec<Candle<F>> =
        (0..7).map(|i| candle(900 * i, 1.0, 2.0, 0.5, 1.5, 1.0)).collect();
    let r = resample_candles(&candles, &p);
    assert_eq!(r.iter().map(|c| (c.time, c.volume.0)).collect::<Vec<_>>(), vec![
        (0, 3.0),
        (2_700, 3.0),
        (5_400, 1.0)
    ]);
}

#[test]
fn the_cache_reads_back_what_is_fresh() {
    let mut cache = CacheDb::new().unwrap();
    let data = r#"[{"time":10,"open":1.0}]"#;
    assert!(cache.get_at("crypto:BTCUSDT", "1h", 1_000).is_none());
    assert!(cache.set_at("crypto:BTCUSDT", "1h", data, 1_000).is_ok());
    let first = cache.get_at("crypto:BTCUSDT", "1h", 1_000).unwrap();
    let second = cache.get_at("crypto:BTCUSDT", "1h", 4_599).unwrap();
    assert_eq!(first, data);
    assert_eq!(second, first);
    assert!(cache.get_at("crypto:BTCUSDT", "1h", 4_600).is_none());
    assert!(cache.get_at("crypto:BTCUSDT", "1h", i64::MAX).is_none());
    assert!(cache.get_at("crypto:BTCUSDT", "1h", -5).is_some());
    assert!(cache.get_at("crypto:BTCUSDT", "1h", i64::MIN).is_some());
    assert!(cache.get_at("crypto:BTCUSDT", "4h", 1_000).is_none());
    assert!(cache.get_at("crypto:ETHUSDT", "1h", 1_000).is_none());
    assert!(cache.get_at("crypto:BTCUSDT:1", "h", 1_000).is_none());
    assert_eq!(cache_key("crypto:BTCUSDT", "1h"), "crypto:BTCUSDT:1h");
}

#[test]
fn a_write_replaces_what_was_there() {
    let mut cache = CacheDb::new().unwrap();
    cache.set_at("us:AAPL", "1d", "old", 0).unwrap();
    cache.set_at("us:MSFT", "1d", "other", 0).unwrap();
    cache.set_at("us:AAPL", "1d", "new \u{0} text with 'quotes'", 86_400).unwrap();
    assert_eq!(cache.get_at("us:AAPL", "1d", 100_000).unwrap(), "new \u{0} text with 'quotes'");
    assert!(cache.get_at("us:MSFT", "1d", 100_000).is_none());
    assert_eq!(cache.get_at("us:MSFT", "1d", 86_399).unwrap(), "other");
    assert!(cache.get_at("us:AAPL", "1d", 172_800).is_none());
    cache.set_at("us:AAPL", "1d", "", i64::MIN).unwrap();
    assert!(cache.get_at("us:AAPL", "1d", 0).is_none());
    assert_eq!(cache.get_at("us:AAPL", "1d", i64::MIN + 86_399).unwrap(), "");
}

#[test]
fn the_cache_follows_the_clock() {
    let mut cache = CacheDb::new().unwrap();
    assert!(cache.get("kr:005930", "1d").is_none());
    assert!(cache.set("kr:005930", "1d", "[1,2,3]").is_ok());
    assert_eq!(cache.get("kr:005930", "1d").unwrap(), "[1,2,3]");
    assert!(cache.get_at("kr:005930", "1d", 1_600_000_000).is_some());
    assert!(cache.get_at("kr:005930", "1d", i64::MAX).is_none());
}

#[test]
fn a_row_is_read_while_it_is_fresh() {
    let row = Some(("data".to_string(), 1_000));
    assert_eq!(fresh_data(row.clone(), "1m", 1_059), Some("data".to_string()));
    assert_eq!(fresh_data(row.clone(), "1m", 1_060), None);
    assert_eq!(fresh_data(row.clone(), "1m", 0), Some("data".to_string()));
    assert_eq!(fresh_data(row, "1M", 2_592_999), Some("data".to_string()));
    assert_eq!(fresh_data(None, "1m", 1_000), None);
}

#[test]
fn time_to_live_is_the_interval_within_bounds() {
    let ttl = |s: &str| CacheDb::ttl_seconds(s);
    assert_eq!(ttl("1m"), 60);
    assert_eq!(ttl("15m"), 900);
    assert_eq!(ttl("1h"), 3_600);
    assert_eq!(ttl("4h"), 14_400);
    assert_eq!(ttl("1d"), 86_400);
    assert_eq!(ttl("1w"), 604_800);
    assert_eq!(ttl("1M"), 2_592_000);
    assert_eq!(ttl("3M"), 2_592_000);
    assert_eq!(ttl("5w"), 2_592_000);
    assert_eq!(ttl("31d"), 2_592_000);
    assert_eq!(ttl("99999999999999999999h"), 2_592_000);
    assert_eq!(ttl("99999999999999999999m"), 2_592_000);
    assert_eq!(ttl("99999999999999999999x"), 3_600);
    assert_eq!(ttl("99999999999999999999"), 3_600);
    assert_eq!(ttl("9223372036854775807d"), 2_592_000);
    assert_eq!(ttl("0m"), 3_600);
    assert_eq!(ttl(""), 3_600);
    assert_eq!(ttl("h"), 3_600);
    assert_eq!(ttl("12"), 3_600);
    assert_eq!(ttl("5x"), 3_600);
    assert_eq!(ttl(" 5m"), 3_600);
    assert_eq!(ttl_seconds("2h"), 7_200);
}

#[test]
fn a_snapshot_looks_at_the_last_candles() {
    let candles: Vec<Candle<F>> = (0..40)
        .map(|i| candle(60 * i, 1.0, 100.0 + i as f64, i as f64, 10.0 + i as f64, 1.0))
        .collect();
    let s = watchlist_snapshot("AAPL", MarketType::UsStock, &candles, 35).unwrap();
    assert_eq!(s.symbol, "AAPL");
    assert_eq!(s.market, MarketType::UsStock);
    assert_eq!(s.last_price.0, 49.0);
    assert_eq!(s.change.0, 1.0);
    assert_eq!(s.change_pct.0, 1.0 / 48.0 * 100.0);
    assert_eq!(s.high.0, 139.0);
    assert_eq!(s.low.0, 5.0);
    assert_eq!(s.sparkline.len(), 32);
    assert_eq!(s.sparkline[0].0, 18.0);
    assert_eq!(s.sparkline[31].0, 49.0);
    let all = watchlist_snapshot("AAPL", MarketType::UsStock, &candles, 240).unwrap();
    assert_eq!(all.low.0, 0.0);
    assert_eq!(all.sparkline.len(), 32);
    let few = watchlist_snapshot("AAPL", MarketType::UsStock, &candles[..3], 32).unwrap();
    assert_eq!(few.sparkline.iter().map(|x| x.0).collect::<Vec<f64>>(), vec![10.0, 11.0, 12.0]);
    assert!(watchlist_snapshot("AAPL", MarketType::UsStock, &candles[..1], 32).is_none());
    assert!(watchlist_snapshot("AAPL", MarketType::UsStock, &candles[..0], 32).is_none());
    let flat = vec![candle(0, 0.0, 1.0, 0.0, 0.0, 1.0), candle(60, 0.0, 1.0, 0.0, 2.0, 1.0)];
    let s = watchlist_snapshot("X", MarketType::Forex, &flat, 32).unwrap();
    assert_eq!((s.change.0, s.change_pct.0), (2.0, 0.0));
}

#[test]
fn a_watchlist_passes_over_what_has_no_snapshot() {
    let candles: Vec<Candle<F>> = (0..3)
        .map(|i| candle(60 * i, 1.0, 100.0 + i as f64, i as f64, 10.0 + i as f64, 1.0))
        .collect();
    let items: Vec<WatchlistItemRequest> = (0..30)
        .map(|i| WatchlistItemRequest { symbol: format!("S{i}"), market: MarketType::UsStock })
        .collect();
    let mut fetched: Vec<Option<Vec<Candle<F>>>> = vec![Some(candles.clone()); 30];
    fetched[0] = None;
    fetched[2] = Some(candles[..1].to_vec());
    fetched[3] = Some(vec![]);
    let r = watchlist_snapshots(&items, &fetched, 32);
    let symbols: Vec<&str> = r.iter().map(|s| s.symbol.as_str()).collect();
    let mut wanted: Vec<String> = vec!["S1".to_string()];
    wanted.extend((4..24).map(|i| format!("S{i}")));
    assert_eq!(symbols, wanted.iter().map(|s| s.as_str()).collect::<Vec<_>>());
    assert_eq!(r[0].last_price.0, 12.0);
    assert_eq!(r[0].change.0, 1.0);
    assert_eq!(r[0].sparkline.len(), 3);
    let short = watchlist_snapshots(&items[..5], &fetched[..2], 32);
    assert_eq!(short.iter().map(|s| s.symbol.as_str()).collect::<Vec<_>>(), vec!["S1"]);
    assert!(watchlist_snapshots::<F>(&[], &[], 32).is_empty());
    assert!(watchlist_snapshots(&items, &fetched, 1).is_empty());
}

#[test]
fn a_chart_gives_the_candles_of_its_complete_rows() {
    let row = |time: Option<i64>, price: Option<f64>, volume: Option<f64>| ChartRow {
        time,
        open: price.map(F),
        high: price.map(|p| F(p + 1.0)),
        low: price.map(|p| F(p - 1.0)),
        close: price.map(F),
        volume: volume.map(F),
    };
    let rows = vec![
        row(Some(10), Some(5.0), Some(100.0)),
        row(None, Some(5.0), Some(100.0)),
        row(Some(30), None, Some(100.0)),
        row(Some(40), Some(7.0), None),
    ];
    let candles = chart_candles(&rows).unwrap();
    assert_eq!(
        candles.iter().map(ohlcv).collect::<Vec<_>>(),
        vec![(10, 5.0, 6.0, 4.0, 5.0, 100.0), (40, 7.0, 8.0, 6.0, 7.0, 0.0)]
    );
    let broken = ChartRow { close: None, ..rows[0] };
    assert_eq!(chart_candles(&[broken, rows[1]]).unwrap_err(), ChartError::NoValidCandles);
    assert_eq!(chart_candles::<F>(&[]).unwrap_err().message(), "No valid candle data from Yahoo Finance");
    let klines = vec![
        row(Some(1_700_000_000_999), Some(5.0), Some(100.0)),
        row(Some(1_700_000_060_000), Some(7.0), None),
        row(Some(-1_500), Some(6.0), Some(1.0)),
    ];
    let candles = kline_candles(&klines).unwrap();
    assert_eq!(
        candles.iter().map(ohlcv).collect::<Vec<_>>(),
        vec![(1_700_000_000, 5.0, 6.0, 4.0, 5.0, 100.0), (-1, 6.0, 7.0, 5.0, 6.0, 1.0)]
    );
    assert_eq!(kline_candles(&klines[1..2]).unwrap_err(), ChartError::NoKlines);
    assert_eq!(kline_candles::<F>(&[]).unwrap_err().message(), "No candle data received from Binance");
    let missing = empty_premarket::<F>("TSLA");
    assert_eq!(missing.symbol, "TSLA");
    assert!(missing.pre_market_price.is_none() && missing.regular_market_volume.is_none());
}

#[test]
fn helpers_of_the_arithmetic() {
    assert_eq!(clamp(F(120.0), F(0.0), F(100.0)), F(100.0));
    assert_eq!(clamp(F(-3.0), F(0.0), F(100.0)), F(0.0));
    assert_eq!(clamp(F(42.5), F(0.0), F(100.0)), F(42.5));
    assert!(clamp(F(f64::NAN), F(0.0), F(100.0)).0.is_nan());
    assert_eq!(whole::<F>(-7), F(-7.0));
    assert!(negligible(F(0.0)) && negligible(F(-1e-17)) && !negligible(F(1e-15)));
    assert_eq!(F::from_ratio(236, 1000).0, 0.236);
    assert_eq!(F::from_ratio(-5, 100).0, -0.05);
    assert_eq!(F::from_ratio(2, 100).0, 0.02);
    assert_eq!(F::from_ratio(3, 2).0, 1.5);
}

#[test]
fn structure_breaks_of_the_rising_series() {
    let candles = rising();
    let r = smc::calculate(&candles, 2);
    let got: Vec<(i64, String, f64, i64, f64)> = r
        .data
        .iter()
        .map(|e| (e.time, e.event_type.clone(), e.price.0, e.swing_time, e.swing_price.0))
        .collect();
    assert_eq!(
        got,
        vec![
            (1700032400, "choch_bull".to_string(), 139.0, 1700010800, 115.75),
            (1700054000, "bos_bull".to_string(), 151.75, 1700032400, 139.0),
            (1700064800, "bos_bull".to_string(), 156.5, 1700054000, 151.75),
            (1700075600, "bos_bull".to_string(), 175.0, 1700064800, 156.5),
            (1700086400, "bos_bull".to_string(), 181.75, 1700075600, 175.0),
            (1700108000, "bos_bull".to_string(), 192.5, 1700086400, 181.75),
            (1700129600, "bos_bull".to_string(), 217.75, 1700108000, 192.5),
            (1700140400, "bos_bull".to_string(), 223.0, 1700129600, 217.75),
            (1700151200, "bos_bull".to_string(), 236.0, 1700140400, 223.0),
            (1700162000, "bos_bull".to_string(), 238.75, 1700151200, 236.0),
            (1700183600, "bos_bull".to_string(), 259.0, 1700162000, 238.75),
            (1700205200, "bos_bull".to_string(), 282.25, 1700183600, 259.0),
        ]
    );
    assert!(r.data.iter().all(|e| candles.iter().any(|c| c.time == e.time)));
    assert!(r.data.iter().all(|e| candles.iter().any(|c| c.time == e.swing_time)));
    assert!(r.data.windows(2).all(|w| w[0].time <= w[1].time));
    assert!(smc::calculate(&candles, 0).data.is_empty());
    assert!(smc::calculate(&candles, 40).data.is_empty());
    assert!(smc::calculate(&candles[..4], 2).data.is_empty());
}

#[test]
fn retracement_of_the_rising_series() {
    let candles = rising();
    let r = auto_fib::calculate(&candles, 40, 2);
    assert_eq!((r.high_time, r.high_price.0, r.low_time, r.low_price.0, r.is_uptrend), (1700205200, 282.25, 1700072000, 140.75, true));
    assert_eq!(r.levels.iter().map(|l| (l.ratio.0, l.price.0)).collect::<Vec<_>>(), vec![(0.0, 282.25), (0.236, 248.856), (0.382, 228.197), (0.5, 211.5), (0.618, 194.803), (0.786, 171.031), (1.0, 140.75)]);
    let r = auto_fib::calculate(&candles, 1000, 3);
    assert_eq!((r.high_time, r.high_price.0, r.low_time, r.low_price.0, r.is_uptrend), (1700086400, 181.75, 1700036000, 116.5, true));
    assert_eq!(r.levels.iter().map(|l| (l.ratio.0, l.price.0)).collect::<Vec<_>>(), vec![(0.0, 181.75), (0.236, 166.351), (0.382, 156.8245), (0.5, 149.125), (0.618, 141.4255), (0.786, 130.4635), (1.0, 116.5)]);
    assert!(auto_fib::calculate(&candles, 0, 2).levels.is_empty());
    assert!(auto_fib::calculate(&candles, 40, 0).levels.is_empty());
    assert!(auto_fib::calculate(&candles[..4], 40, 2).levels.is_empty());
    assert!(auto_fib::calculate(&candles, 3, 2).levels.is_empty());
}

#[test]
fn a_full_analysis_of_the_rising_series() {
    let candles = rising();
    let params = full();
    let r = analyze(&candles, &params);
    assert_eq!(r.symbol, "BTCUSDT");
    assert_eq!(r.interval, "15m");
    assert_eq!(r.candles.iter().map(ohlcv).collect::<Vec<_>>(), candles.iter().map(ohlcv).collect::<Vec<_>>());
    assert_eq!(r.bollinger_bands.len(), 56);
    assert_eq!(r.rsi.len(), 57);
    assert_eq!(r.sma.iter().map(|m| (m.period, m.data.len())).collect::<Vec<_>>(), vec![(3, 58), (10, 51), (0, 0)]);
    assert_eq!(r.ema.iter().map(|m| (m.period, m.data.len())).collect::<Vec<_>>(), vec![(4, 57)]);
    assert_eq!(r.hma.iter().map(|m| (m.period, m.data.len())).collect::<Vec<_>>(), vec![(9, 50), (1, 0)]);
    assert_eq!(r.macd.as_ref().unwrap().data.len(), 52);
    assert_eq!(r.stochastic.as_ref().unwrap().data.len(), 52);
    assert_eq!(r.obv.as_ref().unwrap().data.len(), 60);
    assert_eq!(r.vwap.as_ref().unwrap().data.len(), 60);
    assert_eq!(r.atr.as_ref().unwrap().period, 14);
    assert_eq!(r.atr.as_ref().unwrap().data.len(), 47);
    assert_eq!(r.ichimoku.as_ref().unwrap().data.len(), 60);
    assert_eq!(r.supertrend.as_ref().unwrap().period, 10);
    assert_eq!(r.supertrend.as_ref().unwrap().multiplier.0, 3.0);
    assert_eq!(r.supertrend.as_ref().unwrap().data.len(), 51);
    assert_eq!(r.parabolic_sar.as_ref().unwrap().step.0, 0.02);
    assert_eq!(r.parabolic_sar.as_ref().unwrap().max_step.0, 0.2);
    assert_eq!(r.parabolic_sar.as_ref().unwrap().data.len(), 60);
    assert_eq!(r.donchian.as_ref().unwrap().data.len(), 41);
    assert_eq!(r.keltner.as_ref().unwrap().data.len(), 56);
    assert_eq!(r.mfi.as_ref().unwrap().data.len(), 46);
    assert_eq!(r.cmf.as_ref().unwrap().data.len(), 56);
    assert_eq!(r.choppiness.as_ref().unwrap().data.len(), 47);
    assert_eq!(r.williams_r.as_ref().unwrap().data.len(), 47);
    assert_eq!(r.adx.as_ref().unwrap().data.len(), 51);
    assert_eq!(r.cvd.as_ref().unwrap().data.len(), 60);
    assert_eq!(r.stc.as_ref().unwrap().data.len(), 49);
    assert_eq!(r.smc.as_ref().unwrap().data.len(), 12);
    assert_eq!(r.anchored_vwap.as_ref().unwrap().data.len(), 57);
    assert_eq!(r.auto_fib.as_ref().unwrap().levels.len(), 7);
    assert!(r.signals.windows(2).all(|w| w[0].time <= w[1].time));
    assert!(r.signals.iter().all(|s| candles.iter().any(|c| c.time == s.time)));
    expect(
        &r.signals,
        vec![
        (1700010800, SignalType::ParabolicSarBuy, 112.25, 0.0, "parabolic_sar"),
        (1700025200, SignalType::StrongSell, 118.5, 73.07802229208346, "bb_rsi_qf"),
        (1700028800, SignalType::StrongSell, 124.75, 81.22664540879876, "bb_rsi_qf"),
        (1700028800, SignalType::StochRsiSell, 124.75, 81.22664540879876, "stoch_rsi"),
        (1700028800, SignalType::TtmSqueezeBuy, 124.75, 0.0, "ttm_squeeze"),
        (1700032400, SignalType::StrongSell, 138.0, 90.43399890833851, "bb_rsi_qf"),
        (1700032400, SignalType::StochRsiSell, 138.0, 90.43399890833851, "stoch_rsi"),
        (1700036000, SignalType::MacdBearish, 117.75, 0.0, "macd"),
        (1700036000, SignalType::CmfObvSell, 117.75, 0.0, "cmf_obv"),
        (1700036000, SignalType::MacdHistReversalSell, 117.75, 0.0, "macd_hist"),
        (1700043200, SignalType::StrongSell, 137.25, 72.68690198558104, "bb_rsi_qf"),
        (1700043200, SignalType::MacdBullish, 137.25, 0.0, "macd"),
        (1700043200, SignalType::CmfObvBuy, 137.25, 0.0, "cmf_obv"),
        (1700043200, SignalType::MacdHistReversalBuy, 137.25, 0.0, "macd_hist"),
        (1700043200, SignalType::IbsMeanRevSell, 137.25, 72.68690198558104, "ibs_mean_rev"),
        (1700046800, SignalType::MacdBearish, 128.5, 0.0, "macd"),
        (1700046800, SignalType::MacdHistReversalSell, 128.5, 0.0, "macd_hist"),
        (1700050400, SignalType::StrongSell, 142.5, 71.52177057911635, "bb_rsi_qf"),
        (1700050400, SignalType::MacdBullish, 142.5, 0.0, "macd"),
        (1700050400, SignalType::MacdHistReversalBuy, 142.5, 0.0, "macd_hist"),
        (1700054000, SignalType::StrongSell, 148.25, 77.06017774435966, "bb_rsi_qf"),
        (1700054000, SignalType::RsiDivergenceSell, 148.25, 77.06017774435966, "rsi_divergence"),
        (1700057600, SignalType::MacdBearish, 143.5, 0.0, "macd"),
        (1700057600, SignalType::CmfObvBuy, 143.5, 0.0, "cmf_obv"),
        (1700057600, SignalType::MacdHistReversalSell, 143.5, 0.0, "macd_hist"),
        (1700064800, SignalType::StrongSell, 155.0, 80.94152671896528, "bb_rsi_qf"),
        (1700064800, SignalType::MacdBullish, 155.0, 0.0, "macd"),
        (1700064800, SignalType::SupertrendBuy, 155.0, 0.0, "supertrend_adx"),
        (1700064800, SignalType::MacdHistReversalBuy, 155.0, 0.0, "macd_hist"),
        (1700068400, SignalType::MacdBearish, 146.25, 0.0, "macd"),
        (1700068400, SignalType::MacdHistReversalSell, 146.25, 0.0, "macd_hist"),
        (1700072000, SignalType::CmfObvBuy, 145.0, 0.0, "cmf_obv"),
        (1700075600, SignalType::StrongSell, 174.0, 85.1896667306925, "bb_rsi_qf"),
        (1700075600, SignalType::MacdBullish, 174.0, 0.0, "macd"),
        (1700075600, SignalType::MacdHistReversalBuy, 174.0, 0.0, "macd_hist"),
        (1700082800, SignalType::MacdBearish, 163.5, 0.0, "macd"),
        (1700086400, SignalType::StrongSell, 180.75, 79.54199950094369, "bb_rsi_qf"),
        (1700086400, SignalType::MacdBullish, 180.75, 0.0, "macd"),
        (1700086400, SignalType::CmfObvBuy, 180.75, 0.0, "cmf_obv"),
        (1700086400, SignalType::TtmSqueezeBuy, 180.75, 0.0, "ttm_squeeze"),
        (1700086400, SignalType::MacdHistReversalBuy, 180.75, 0.0, "macd_hist"),
        (1700086400, SignalType::IbsMeanRevSell, 180.75, 79.54199950094369, "ibs_mean_rev"),
        (1700086400, SignalType::RsiDivergenceSell, 180.75, 79.54199950094369, "rsi_divergence"),
        (1700090000, SignalType::MacdBearish, 164.5, 0.0, "macd"),
        (1700090000, SignalType::MacdHistReversalSell, 164.5, 0.0, "macd_hist"),
        (1700100800, SignalType::StrongSell, 187.0, 78.34265814628938, "bb_rsi_qf"),
        (1700100800, SignalType::MacdBullish, 187.0, 0.0, "macd"),
        (1700100800, SignalType::CmfObvBuy, 187.0, 0.0, "cmf_obv"),
        (1700100800, SignalType::MacdHistReversalBuy, 187.0, 0.0, "macd_hist"),
        (1700104400, SignalType::StrongSell, 189.25, 80.37458026426175, "bb_rsi_qf"),
        (1700104400, SignalType::StochRsiSell, 189.25, 80.37458026426175, "stoch_rsi"),
        (1700104400, SignalType::TtmSqueezeBuy, 189.25, 0.0, "ttm_squeeze"),
        (1700108000, SignalType::StochRsiSell, 191.0, 82.31080902269858, "stoch_rsi"),
        (1700111600, SignalType::MacdBearish, 182.25, 0.0, "macd"),
        (1700111600, SignalType::MacdHistReversalSell, 182.25, 0.0, "macd_hist"),
        (1700115200, SignalType::CmfObvBuy, 188.5, 0.0, "cmf_obv"),
        (1700118800, SignalType::StrongSell, 201.75, 81.85861391850665, "bb_rsi_qf"),
        (1700118800, SignalType::MacdBullish, 201.75, 0.0, "macd"),
        (1700118800, SignalType::MacdHistReversalBuy, 201.75, 0.0, "macd_hist"),
        (1700122400, SignalType::MacdBearish, 189.0, 0.0, "macd"),
        (1700122400, SignalType::MacdHistReversalSell, 189.0, 0.0, "macd_hist"),
        (1700129600, SignalType::StrongSell, 216.75, 81.22513982384407, "bb_rsi_qf"),
        (1700129600, SignalType::MacdBullish, 216.75, 0.0, "macd"),
        (1700129600, SignalType::CmfObvBuy, 216.75, 0.0, "cmf_obv"),
        (1700129600, SignalType::MacdHistReversalBuy, 216.75, 0.0, "macd_hist"),
        (1700129600, SignalType::IbsMeanRevSell, 216.75, 81.22513982384407, "ibs_mean_rev"),
        (1700129600, SignalType::RsiDivergenceSell, 216.75, 81.22513982384407, "rsi_divergence"),
        (1700136800, SignalType::MacdBearish, 206.25, 0.0, "macd"),
        (1700136800, SignalType::MacdHistReversalSell, 206.25, 0.0, "macd_hist"),
        (1700140400, SignalType::StrongSell, 219.5, 75.7382745979977, "bb_rsi_qf"),
        (1700140400, SignalType::MacdBullish, 219.5, 0.0, "macd"),
        (1700140400, SignalType::MacdHistReversalBuy, 219.5, 0.0, "macd_hist"),
        (1700140400, SignalType::RsiDivergenceSell, 219.5, 75.7382745979977, "rsi_divergence"),
        (1700144000, SignalType::MacdBearish, 207.25, 0.0, "macd"),
        (1700144000, SignalType::CmfObvBuy, 207.25, 0.0, "cmf_obv"),
        (1700144000, SignalType::ParabolicSarSell, 207.25, 0.0, "parabolic_sar"),
        (1700144000, SignalType::MacdHistReversalSell, 207.25, 0.0, "macd_hist"),
        (1700151200, SignalType::StrongSell, 234.5, 81.40569887042304, "bb_rsi_qf"),
        (1700151200, SignalType::MacdBullish, 234.5, 0.0, "macd"),
        (1700151200, SignalType::ParabolicSarBuy, 234.5, 0.0, "parabolic_sar"),
        (1700151200, SignalType::MacdHistReversalBuy, 234.5, 0.0, "macd_hist"),
        (1700158400, SignalType::CmfObvBuy, 232.0, 0.0, "cmf_obv"),
        (1700158400, SignalType::TtmSqueezeBuy, 232.0, 0.0, "ttm_squeeze"),
        (1700162000, SignalType::StochRsiSell, 237.75, 76.29427816121193, "stoch_rsi"),
        (1700162000, SignalType::RsiDivergenceSell, 237.75, 76.29427816121193, "rsi_divergence"),
        (1700165600, SignalType::WeakBuy, 225.0, 43.85880594708064, "bb_rsi_qf"),
        (1700165600, SignalType::MacdBearish, 225.0, 0.0, "macd"),
        (1700165600, SignalType::MacdHistReversalSell, 225.0, 0.0, "macd_hist"),
        (1700172800, SignalType::StrongSell, 244.5, 76.67296889827007, "bb_rsi_qf"),
        (1700172800, SignalType::MacdBullish, 244.5, 0.0, "macd"),
        (1700172800, SignalType::CmfObvBuy, 244.5, 0.0, "cmf_obv"),
        (1700172800, SignalType::MacdHistReversalBuy, 244.5, 0.0, "macd_hist"),
        (1700172800, SignalType::IbsMeanRevSell, 244.5, 76.67296889827007, "ibs_mean_rev"),
        (1700176400, SignalType::StrongSell, 251.5, 82.42541731997619, "bb_rsi_qf"),
        (1700176400, SignalType::TtmSqueezeBuy, 251.5, 0.0, "ttm_squeeze"),
        (1700180000, SignalType::MacdBearish, 242.25, 0.0, "macd"),
        (1700180000, SignalType::MacdHistReversalSell, 242.25, 0.0, "macd_hist"),
        (1700183600, SignalType::StrongSell, 255.5, 73.82711010455564, "bb_rsi_qf"),
        (1700183600, SignalType::MacdBullish, 255.5, 0.0, "macd"),
        (1700183600, SignalType::StochRsiSell, 255.5, 73.82711010455564, "stoch_rsi"),
        (1700183600, SignalType::MacdHistReversalBuy, 255.5, 0.0, "macd_hist"),
        (1700183600, SignalType::RsiDivergenceSell, 255.5, 73.82711010455564, "rsi_divergence"),
        (1700187200, SignalType::MacdBearish, 250.75, 0.0, "macd"),
        (1700187200, SignalType::CmfObvBuy, 250.75, 0.0, "cmf_obv"),
        (1700187200, SignalType::MacdHistReversalSell, 250.75, 0.0, "macd_hist"),
        (1700194400, SignalType::StrongSell, 262.25, 79.44181040362795, "bb_rsi_qf"),
        (1700194400, SignalType::MacdBullish, 262.25, 0.0, "macd"),
        (1700194400, SignalType::MacdHistReversalBuy, 262.25, 0.0, "macd_hist"),
        (1700198000, SignalType::WeakBuy, 246.0, 38.00147253678578, "bb_rsi_qf"),
        (1700198000, SignalType::MacdBearish, 246.0, 0.0, "macd"),
        (1700198000, SignalType::MacdHistReversalSell, 246.0, 0.0, "macd_hist"),
        (1700201600, SignalType::MacdBullish, 268.0, 0.0, "macd"),
        (1700201600, SignalType::CmfObvBuy, 268.0, 0.0, "cmf_obv"),
        (1700201600, SignalType::MacdHistReversalBuy, 268.0, 0.0, "macd_hist"),
        (1700205200, SignalType::StrongSell, 281.25, 79.4458743524933, "bb_rsi_qf"),
        (1700205200, SignalType::TtmSqueezeBuy, 281.25, 0.0, "ttm_squeeze"),
        (1700208800, SignalType::MacdBearish, 268.5, 0.0, "macd"),
        (1700208800, SignalType::MacdHistReversalSell, 268.5, 0.0, "macd_hist"),
    ],
    );
}

#[test]
fn a_plain_analysis_of_the_rising_series() {
    let candles = rising();
    let r = analyze(&candles, &plain());
    assert!(r.macd.is_none() && r.stochastic.is_none() && r.obv.is_none());
    assert!(r.donchian.is_none() && r.keltner.is_none() && r.mfi.is_none() && r.cmf.is_none());
    assert!(r.choppiness.is_none() && r.williams_r.is_none() && r.adx.is_none());
    assert!(r.cvd.is_none() && r.stc.is_none() && r.smc.is_none());
    assert!(r.anchored_vwap.is_none() && r.auto_fib.is_none());
    assert!(r.sma.is_empty() && r.ema.is_empty() && r.hma.is_empty());
    assert!(r.vwap.is_some() && r.atr.is_some() && r.ichimoku.is_some());
    assert!(r.supertrend.is_some() && r.parabolic_sar.is_some());
    expect(
        &r.signals,
        vec![
        (1700025200, SignalType::StrongSell, 118.5, 73.07802229208346, "bb_rsi_qf"),
        (1700028800, SignalType::StrongSell, 124.75, 81.22664540879876, "bb_rsi_qf"),
        (1700032400, SignalType::StrongSell, 138.0, 90.43399890833851, "bb_rsi_qf"),
        (1700043200, SignalType::StrongSell, 137.25, 72.68690198558104, "bb_rsi_qf"),
        (1700050400, SignalType::StrongSell, 142.5, 71.52177057911635, "bb_rsi_qf"),
        (1700054000, SignalType::StrongSell, 148.25, 77.06017774435966, "bb_rsi_qf"),
        (1700064800, SignalType::StrongSell, 155.0, 80.94152671896528, "bb_rsi_qf"),
        (1700075600, SignalType::StrongSell, 174.0, 85.1896667306925, "bb_rsi_qf"),
        (1700086400, SignalType::StrongSell, 180.75, 79.54199950094369, "bb_rsi_qf"),
        (1700100800, SignalType::StrongSell, 187.0, 78.34265814628938, "bb_rsi_qf"),
        (1700104400, SignalType::StrongSell, 189.25, 80.37458026426175, "bb_rsi_qf"),
        (1700118800, SignalType::StrongSell, 201.75, 81.85861391850665, "bb_rsi_qf"),
        (1700129600, SignalType::StrongSell, 216.75, 81.22513982384407, "bb_rsi_qf"),
        (1700140400, SignalType::StrongSell, 219.5, 75.7382745979977, "bb_rsi_qf"),
        (1700151200, SignalType::StrongSell, 234.5, 81.40569887042304, "bb_rsi_qf"),
        (1700165600, SignalType::WeakBuy, 225.0, 43.85880594708064, "bb_rsi_qf"),
        (1700172800, SignalType::StrongSell, 244.5, 76.67296889827007, "bb_rsi_qf"),
        (1700176400, SignalType::StrongSell, 251.5, 82.42541731997619, "bb_rsi_qf"),
        (1700183600, SignalType::StrongSell, 255.5, 73.82711010455564, "bb_rsi_qf"),
        (1700194400, SignalType::StrongSell, 262.25, 79.44181040362795, "bb_rsi_qf"),
        (1700198000, SignalType::WeakBuy, 246.0, 38.00147253678578, "bb_rsi_qf"),
        (1700205200, SignalType::StrongSell, 281.25, 79.4458743524933, "bb_rsi_qf"),
    ],
    );
}

#[test]
fn strategies_fall_back_on_customary_windows_for_the_rising_series() {
    let candles = rising();
    let params = AnalysisParams {
        macd: Some(MacdParams { fast_period: 3, slow_period: 6, signal_period: 4 }),
        signal_strategies: SignalStrategyParams {
            supertrend_adx: true,
            cmf_obv: true,
            ttm_squeeze: true,
            stoch_rsi_combined: true,
            macd_hist_reversal: true,
            ..nothing_on()
        },
        ..plain()
    };
    let r = analyze(&candles, &params);
    assert!(r.adx.is_none() && r.cmf.is_none() && r.obv.is_none() && r.keltner.is_none());
    expect(
        &r.signals,
        vec![
        (1700025200, SignalType::StrongSell, 118.5, 73.07802229208346, "bb_rsi_qf"),
        (1700028800, SignalType::StrongSell, 124.75, 81.22664540879876, "bb_rsi_qf"),
        (1700032400, SignalType::StrongSell, 138.0, 90.43399890833851, "bb_rsi_qf"),
        (1700036000, SignalType::MacdBearish, 117.75, 0.0, "macd"),
        (1700036000, SignalType::MacdHistReversalSell, 117.75, 0.0, "macd_hist"),
        (1700043200, SignalType::StrongSell, 137.25, 72.68690198558104, "bb_rsi_qf"),
        (1700043200, SignalType::MacdBullish, 137.25, 0.0, "macd"),
        (1700043200, SignalType::MacdHistReversalBuy, 137.25, 0.0, "macd_hist"),
        (1700046800, SignalType::MacdBearish, 128.5, 0.0, "macd"),
        (1700046800, SignalType::MacdHistReversalSell, 128.5, 0.0, "macd_hist"),
        (1700050400, SignalType::StrongSell, 142.5, 71.52177057911635, "bb_rsi_qf"),
        (1700050400, SignalType::MacdBullish, 142.5, 0.0, "macd"),
        (1700050400, SignalType::MacdHistReversalBuy, 142.5, 0.0, "macd_hist"),
        (1700054000, SignalType::StrongSell, 148.25, 77.06017774435966, "bb_rsi_qf"),
        (1700057600, SignalType::MacdBearish, 143.5, 0.0, "macd"),
        (1700057600, SignalType::MacdHistReversalSell, 143.5, 0.0, "macd_hist"),
        (1700064800, SignalType::StrongSell, 155.0, 80.94152671896528, "bb_rsi_qf"),
        (1700064800, SignalType::MacdBullish, 155.0, 0.0, "macd"),
        (1700064800, SignalType::MacdHistReversalBuy, 155.0, 0.0, "macd_hist"),
        (1700068400, SignalType::MacdBearish, 146.25, 0.0, "macd"),
        (1700068400, SignalType::MacdHistReversalSell, 146.25, 0.0, "macd_hist"),
        (1700075600, SignalType::StrongSell, 174.0, 85.1896667306925, "bb_rsi_qf"),
        (1700075600, SignalType::MacdBullish, 174.0, 0.0, "macd"),
        (1700075600, SignalType::MacdHistReversalBuy, 174.0, 0.0, "macd_hist"),
        (1700079200, SignalType::CmfObvBuy, 161.25, 0.0, "cmf_obv"),
        (1700082800, SignalType::MacdBearish, 163.5, 0.0, "macd"),
        (1700086400, SignalType::StrongSell, 180.75, 79.54199950094369, "bb_rsi_qf"),
        (1700086400, SignalType::MacdBullish, 180.75, 0.0, "macd"),
        (1700086400, SignalType::MacdHistReversalBuy, 180.75, 0.0, "macd_hist"),
        (1700090000, SignalType::MacdBearish, 164.5, 0.0, "macd"),
        (1700090000, SignalType::MacdHistReversalSell, 164.5, 0.0, "macd_hist"),
        (1700100800, SignalType::StrongSell, 187.0, 78.34265814628938, "bb_rsi_qf"),
        (1700100800, SignalType::MacdBullish, 187.0, 0.0, "macd"),
        (1700100800, SignalType::MacdHistReversalBuy, 187.0, 0.0, "macd_hist"),
        (1700104400, SignalType::StrongSell, 189.25, 80.37458026426175, "bb_rsi_qf"),
        (1700111600, SignalType::MacdBearish, 182.25, 0.0, "macd"),
        (1700111600, SignalType::MacdHistReversalSell, 182.25, 0.0, "macd_hist"),
        (1700118800, SignalType::StrongSell, 201.75, 81.85861391850665, "bb_rsi_qf"),
        (1700118800, SignalType::MacdBullish, 201.75, 0.0, "macd"),
        (1700118800, SignalType::MacdHistReversalBuy, 201.75, 0.0, "macd_hist"),
        (1700122400, SignalType::MacdBearish, 189.0, 0.0, "macd"),
        (1700122400, SignalType::CmfObvBuy, 189.0, 0.0, "cmf_obv"),
        (1700122400, SignalType::MacdHistReversalSell, 189.0, 0.0, "macd_hist"),
        (1700129600, SignalType::StrongSell, 216.75, 81.22513982384407, "bb_rsi_qf"),
        (1700129600, SignalType::MacdBullish, 216.75, 0.0, "macd"),
        (1700129600, SignalType::MacdHistReversalBuy, 216.75, 0.0, "macd_hist"),
        (1700136800, SignalType::MacdBearish, 206.25, 0.0, "macd"),
        (1700136800, SignalType::MacdHistReversalSell, 206.25, 0.0, "macd_hist"),
        (1700140400, SignalType::StrongSell, 219.5, 75.7382745979977, "bb_rsi_qf"),
        (1700140400, SignalType::MacdBullish, 219.5, 0.0, "macd"),
        (1700140400, SignalType::MacdHistReversalBuy, 219.5, 0.0, "macd_hist"),
        (1700144000, SignalType::MacdBearish, 207.25, 0.0, "macd"),
        (1700144000, SignalType::MacdHistReversalSell, 207.25, 0.0, "macd_hist"),
        (1700151200, SignalType::StrongSell, 234.5, 81.40569887042304, "bb_rsi_qf"),
        (1700151200, SignalType::MacdBullish, 234.5, 0.0, "macd"),
        (1700151200, SignalType::MacdHistReversalBuy, 234.5, 0.0, "macd_hist"),
        (1700165600, SignalType::WeakBuy, 225.0, 43.85880594708064, "bb_rsi_qf"),
        (1700165600, SignalType::MacdBearish, 225.0, 0.0, "macd"),
        (1700165600, SignalType::CmfObvBuy, 225.0, 0.0, "cmf_obv"),
        (1700165600, SignalType::MacdHistReversalSell, 225.0, 0.0, "macd_hist"),
        (1700172800, SignalType::StrongSell, 244.5, 76.67296889827007, "bb_rsi_qf"),
        (1700172800, SignalType::MacdBullish, 244.5, 0.0, "macd"),
        (1700172800, SignalType::MacdHistReversalBuy, 244.5, 0.0, "macd_hist"),
        (1700176400, SignalType::StrongSell, 251.5, 82.42541731997619, "bb_rsi_qf"),
        (1700180000, SignalType::MacdBearish, 242.25, 0.0, "macd"),
        (1700180000, SignalType::MacdHistReversalSell, 242.25, 0.0, "macd_hist"),
        (1700183600, SignalType::StrongSell, 255.5, 73.82711010455564, "bb_rsi_qf"),
        (1700183600, SignalType::MacdBullish, 255.5, 0.0, "macd"),
        (1700183600, SignalType::MacdHistReversalBuy, 255.5, 0.0, "macd_hist"),
        (1700187200, SignalType::MacdBearish, 250.75, 0.0, "macd"),
        (1700187200, SignalType::MacdHistReversalSell, 250.75, 0.0, "macd_hist"),
        (1700194400, SignalType::StrongSell, 262.25, 79.44181040362795, "bb_rsi_qf"),
        (1700194400, SignalType::MacdBullish, 262.25, 0.0, "macd"),
        (1700194400, SignalType::MacdHistReversalBuy, 262.25, 0.0, "macd_hist"),
        (1700198000, SignalType::WeakBuy, 246.0, 38.00147253678578, "bb_rsi_qf"),
        (1700198000, SignalType::MacdBearish, 246.0, 0.0, "macd"),
        (1700198000, SignalType::MacdHistReversalSell, 246.0, 0.0, "macd_hist"),
        (1700201600, SignalType::MacdBullish, 268.0, 0.0, "macd"),
        (1700201600, SignalType::MacdHistReversalBuy, 268.0, 0.0, "macd_hist"),
        (1700205200, SignalType::StrongSell, 281.25, 79.4458743524933, "bb_rsi_qf"),
        (1700208800, SignalType::MacdBearish, 268.5, 0.0, "macd"),
        (1700208800, SignalType::CmfObvBuy, 268.5, 0.0, "cmf_obv"),
        (1700208800, SignalType::MacdHistReversalSell, 268.5, 0.0, "macd_hist"),
    ],
    );
}

#[test]
fn structure_breaks_of_the_swinging_series() {
    let candles = swinging();
    let r = smc::calculate(&candles, 2);
    let got: Vec<(i64, String, f64, i64, f64)> = r
        .data
        .iter()
        .map(|e| (e.time, e.event_type.clone(), e.price.0, e.swing_time, e.swing_price.0))
        .collect();
    assert_eq!(
        got,
        vec![
            (1700031500, "choch_bull".to_string(), 117.54, 1700004500, 117.17),
            (1700050400, "bos_bull".to_string(), 120.85, 1700031500, 117.54),
            (1700063900, "choch_bear".to_string(), 81.74, 1700038700, 83.83),
        ]
    );
    assert!(r.data.iter().all(|e| candles.iter().any(|c| c.time == e.time)));
    assert!(r.data.iter().all(|e| candles.iter().any(|c| c.time == e.swing_time)));
    assert!(r.data.windows(2).all(|w| w[0].time <= w[1].time));
    assert!(smc::calculate(&candles, 0).data.is_empty());
    assert!(smc::calculate(&candles, 40).data.is_empty());
    assert!(smc::calculate(&candles[..4], 2).data.is_empty());
}

#[test]
fn retracement_of_the_swinging_series() {
    let candles = swinging();
    let r = auto_fib::calculate(&candles, 40, 2);
    assert_eq!((r.high_time, r.high_price.0, r.low_time, r.low_price.0, r.is_uptrend), (1700050400, 120.85, 1700063900, 81.74, false));
    assert_eq!(r.levels.iter().map(|l| (l.ratio.0, l.price.0)).collect::<Vec<_>>(), vec![(0.0, 81.74), (0.236, 90.96996), (0.382, 96.68002), (0.5, 101.29499999999999), (0.618, 105.90997999999999), (0.786, 112.48046), (1.0, 120.85)]);
    let r = auto_fib::calculate(&candles, 1000, 3);
    assert_eq!((r.high_time, r.high_price.0, r.low_time, r.low_price.0, r.is_uptrend), (1700050400, 120.85, 1700017100, 79.19, true));
    assert_eq!(r.levels.iter().map(|l| (l.ratio.0, l.price.0)).collect::<Vec<_>>(), vec![(0.0, 120.85), (0.236, 111.01823999999999), (0.382, 104.93588), (0.5, 100.02), (0.618, 95.10412), (0.786, 88.10524), (1.0, 79.19)]);
    assert!(auto_fib::calculate(&candles, 0, 2).levels.is_empty());
    assert!(auto_fib::calculate(&candles, 40, 0).levels.is_empty());
    assert!(auto_fib::calculate(&candles[..4], 40, 2).levels.is_empty());
    assert!(auto_fib::calculate(&candles, 3, 2).levels.is_empty());
}

#[test]
fn a_full_analysis_of_the_swinging_series() {
    let candles = swinging();
    let params = full();
    let r = analyze(&candles, &params);
    assert_eq!(r.symbol, "BTCUSDT");
    assert_eq!(r.interval, "15m");
    assert_eq!(r.candles.iter().map(ohlcv).collect::<Vec<_>>(), candles.iter().map(ohlcv).collect::<Vec<_>>());
    assert_eq!(r.bollinger_bands.len(), 76);
    assert_eq!(r.rsi.len(), 77);
    assert_eq!(r.sma.iter().map(|m| (m.period, m.data.len())).collect::<Vec<_>>(), vec![(3, 78), (10, 71), (0, 0)]);
    assert_eq!(r.ema.iter().map(|m| (m.period, m.data.len())).collect::<Vec<_>>(), vec![(4, 77)]);
    assert_eq!(r.hma.iter().map(|m| (m.period, m.data.len())).collect::<Vec<_>>(), vec![(9, 70), (1, 0)]);
    assert_eq!(r.macd.as_ref().unwrap().data.len(), 72);
    assert_eq!(r.stochastic.as_ref().unwrap().data.len(), 72);
    assert_eq!(r.obv.as_ref().unwrap().data.len(), 80);
    assert_eq!(r.vwap.as_ref().unwrap().data.len(), 80);
    assert_eq!(r.atr.as_ref().unwrap().period, 14);
    assert_eq!(r.atr.as_ref().unwrap().data.len(), 67);
    assert_eq!(r.ichimoku.as_ref().unwrap().data.len(), 80);
    assert_eq!(r.supertrend.as_ref().unwrap().period, 10);
    assert_eq!(r.supertrend.as_ref().unwrap().multiplier.0, 3.0);
    assert_eq!(r.supertrend.as_ref().unwrap().data.len(), 71);
    assert_eq!(r.parabolic_sar.as_ref().unwrap().step.0, 0.02);
    assert_eq!(r.parabolic_sar.as_ref().unwrap().max_step.0, 0.2);
    assert_eq!(r.parabolic_sar.as_ref().unwrap().data.len(), 80);
    assert_eq!(r.donchian.as_ref().unwrap().data.len(), 61);
    assert_eq!(r.keltner.as_ref().unwrap().data.len(), 76);
    assert_eq!(r.mfi.as_ref().unwrap().data.len(), 66);
    assert_eq!(r.cmf.as_ref().unwrap().data.len(), 76);
    assert_eq!(r.choppiness.as_ref().unwrap().data.len(), 67);
    assert_eq!(r.williams_r.as_ref().unwrap().data.len(), 67);
    assert_eq!(r.adx.as_ref().unwrap().data.len(), 71);
    assert_eq!(r.cvd.as_ref().unwrap().data.len(), 80);
    assert_eq!(r.stc.as_ref().unwrap().data.len(), 69);
    assert_eq!(r.smc.as_ref().unwrap().data.len(), 3);
    assert_eq!(r.anchored_vwap.as_ref().unwrap().data.len(), 70);
    assert_eq!(r.auto_fib.as_ref().unwrap().levels.len(), 7);
    assert!(r.signals.windows(2).all(|w| w[0].time <= w[1].time));
    assert!(r.signals.iter().all(|s| candles.iter().any(|c| c.time == s.time)));
    expect(
        &r.signals,
        vec![
        (1700002700, SignalType::IbsMeanRevSell, 115.13, 100.0, "ibs_mean_rev"),
        (1700003600, SignalType::StrongSell, 116.17, 100.0, "bb_rsi_qf"),
        (1700006300, SignalType::WeakBuy, 110.62, 43.352760686397104, "bb_rsi_qf"),
        (1700007200, SignalType::EmaCrossoverSell, 108.64, 0.0, "ema_crossover"),
        (1700007200, SignalType::TtmSqueezeSell, 108.64, 0.0, "ttm_squeeze"),
        (1700007200, SignalType::IbsMeanRevBuy, 108.64, 31.17659420459057, "ibs_mean_rev"),
        (1700008100, SignalType::StrongBuy, 107.49, 25.047660809799936, "bb_rsi_qf"),
        (1700008100, SignalType::StochRsiBuy, 107.49, 25.047660809799936, "stoch_rsi"),
        (1700009000, SignalType::StrongBuy, 107.03, 22.40494009464041, "bb_rsi_qf"),
        (1700009000, SignalType::StochRsiBuy, 107.03, 22.40494009464041, "stoch_rsi"),
        (1700009900, SignalType::StochOversold, 106.66, 0.0, "stochastic"),
        (1700009900, SignalType::StochRsiBuy, 106.66, 19.87491656064732, "stoch_rsi"),
        (1700009900, SignalType::ParabolicSarSell, 106.66, 0.0, "parabolic_sar"),
        (1700010800, SignalType::StrongBuy, 105.62, 13.464423730517439, "bb_rsi_qf"),
        (1700010800, SignalType::StochRsiBuy, 105.62, 13.464423730517439, "stoch_rsi"),
        (1700010800, SignalType::IbsMeanRevBuy, 105.62, 13.464423730517439, "ibs_mean_rev"),
        (1700011700, SignalType::StrongBuy, 103.27, 6.432364399079702, "bb_rsi_qf"),
        (1700011700, SignalType::StochRsiBuy, 103.27, 6.432364399079702, "stoch_rsi"),
        (1700011700, SignalType::IbsMeanRevBuy, 103.27, 6.432364399079702, "ibs_mean_rev"),
        (1700012600, SignalType::StrongBuy, 99.38, 2.800595735527253, "bb_rsi_qf"),
        (1700012600, SignalType::StochRsiBuy, 99.38, 2.800595735527253, "stoch_rsi"),
        (1700012600, SignalType::IbsMeanRevBuy, 99.38, 2.800595735527253, "ibs_mean_rev"),
        (1700013500, SignalType::StrongBuy, 94.25, 1.3229826812901138, "bb_rsi_qf"),
        (1700013500, SignalType::StochRsiBuy, 94.25, 1.3229826812901138, "stoch_rsi"),
        (1700013500, SignalType::TtmSqueezeSell, 94.25, 0.0, "ttm_squeeze"),
        (1700013500, SignalType::IbsMeanRevBuy, 94.25, 1.3229826812901138, "ibs_mean_rev"),
        (1700014400, SignalType::StrongBuy, 88.71, 0.7133285196574803, "bb_rsi_qf"),
        (1700014400, SignalType::StochRsiBuy, 88.71, 0.7133285196574803, "stoch_rsi"),
        (1700014400, SignalType::IbsMeanRevBuy, 88.71, 0.7133285196574803, "ibs_mean_rev"),
        (1700015300, SignalType::StrongBuy, 83.86, 0.44440393273808354, "bb_rsi_qf"),
        (1700015300, SignalType::StochRsiBuy, 83.86, 0.44440393273808354, "stoch_rsi"),
        (1700015300, SignalType::IbsMeanRevBuy, 83.86, 0.44440393273808354, "ibs_mean_rev"),
        (1700016200, SignalType::StrongBuy, 80.75, 0.32613948405526116, "bb_rsi_qf"),
        (1700016200, SignalType::StochRsiBuy, 80.75, 0.32613948405526116, "stoch_rsi"),
        (1700016200, SignalType::IbsMeanRevBuy, 80.75, 0.32613948405526116, "ibs_mean_rev"),
        (1700017100, SignalType::StrongBuy, 80.09, 0.3006688606062937, "bb_rsi_qf"),
        (1700017100, SignalType::StochOversold, 80.09, 0.0, "stochastic"),
        (1700017100, SignalType::StochRsiBuy, 80.09, 0.3006688606062937, "stoch_rsi"),
        (1700018000, SignalType::MacdBullish, 82.02, 0.0, "macd"),
        (1700018000, SignalType::StochRsiBuy, 82.02, 25.73956739013063, "stoch_rsi"),
        (1700018000, SignalType::MacdHistReversalBuy, 82.02, 0.0, "macd_hist"),
        (1700019800, SignalType::StrongSell, 91.25, 77.79951117692818, "bb_rsi_qf"),
        (1700019800, SignalType::ParabolicSarBuy, 91.25, 0.0, "parabolic_sar"),
        (1700019800, SignalType::IbsMeanRevSell, 91.25, 77.79951117692818, "ibs_mean_rev"),
        (1700020700, SignalType::StrongSell, 96.48, 86.92270867071139, "bb_rsi_qf"),
        (1700020700, SignalType::SupertrendBuy, 96.48, 0.0, "supertrend_adx"),
        (1700020700, SignalType::EmaCrossoverBuy, 96.48, 0.0, "ema_crossover"),
        (1700020700, SignalType::StochRsiSell, 96.48, 86.92270867071139, "stoch_rsi"),
        (1700020700, SignalType::IbsMeanRevSell, 96.48, 86.92270867071139, "ibs_mean_rev"),
        (1700021600, SignalType::StrongSell, 100.81, 91.34150790817036, "bb_rsi_qf"),
        (1700021600, SignalType::StochRsiSell, 100.81, 91.34150790817036, "stoch_rsi"),
        (1700021600, SignalType::IbsMeanRevSell, 100.81, 91.34150790817036, "ibs_mean_rev"),
        (1700022500, SignalType::StrongSell, 103.72, 93.54147493865239, "bb_rsi_qf"),
        (1700022500, SignalType::StochRsiSell, 103.72, 93.54147493865239, "stoch_rsi"),
        (1700022500, SignalType::IbsMeanRevSell, 103.72, 93.54147493865239, "ibs_mean_rev"),
        (1700023400, SignalType::StrongSell, 105.24, 94.6137419025443, "bb_rsi_qf"),
        (1700023400, SignalType::StochRsiSell, 105.24, 94.6137419025443, "stoch_rsi"),
        (1700024300, SignalType::StrongSell, 105.88, 95.1249271711055, "bb_rsi_qf"),
        (1700024300, SignalType::StochOverbought, 105.88, 0.0, "stochastic"),
        (1700024300, SignalType::StochRsiSell, 105.88, 95.1249271711055, "stoch_rsi"),
        (1700025200, SignalType::MacdBearish, 106.4, 0.0, "macd"),
        (1700025200, SignalType::StochRsiSell, 106.4, 95.63034749287806, "stoch_rsi"),
        (1700026100, SignalType::StrongSell, 107.47, 96.68964482340165, "bb_rsi_qf"),
        (1700026100, SignalType::StochRsiSell, 107.47, 96.68964482340165, "stoch_rsi"),
        (1700027000, SignalType::StrongSell, 109.41, 98.00496358496835, "bb_rsi_qf"),
        (1700027000, SignalType::StochRsiSell, 109.41, 98.00496358496835, "stoch_rsi"),
        (1700027000, SignalType::IbsMeanRevSell, 109.41, 98.00496358496835, "ibs_mean_rev"),
        (1700027900, SignalType::StrongSell, 112.04, 98.8965396853595, "bb_rsi_qf"),
        (1700027900, SignalType::StochRsiSell, 112.04, 98.8965396853595, "stoch_rsi"),
        (1700027900, SignalType::IbsMeanRevSell, 112.04, 98.8965396853595, "ibs_mean_rev"),
        (1700028800, SignalType::StrongSell, 114.71, 99.34338986993406, "bb_rsi_qf"),
        (1700028800, SignalType::MacdBullish, 114.71, 0.0, "macd"),
        (1700028800, SignalType::StochRsiSell, 114.71, 99.34338986993406, "stoch_rsi"),
        (1700028800, SignalType::MacdHistReversalBuy, 114.71, 0.0, "macd_hist"),
        (1700029700, SignalType::StrongSell, 116.5, 99.5334019372442, "bb_rsi_qf"),
        (1700029700, SignalType::StochRsiSell, 116.5, 99.5334019372442, "stoch_rsi"),
        (1700029700, SignalType::TtmSqueezeBuy, 116.5, 0.0, "ttm_squeeze"),
        (1700029700, SignalType::IbsMeanRevSell, 116.5, 99.5334019372442, "ibs_mean_rev"),
        (1700030600, SignalType::MacdBearish, 116.54, 0.0, "macd"),
        (1700030600, SignalType::StochRsiSell, 116.54, 99.53788445891678, "stoch_rsi"),
        (1700031500, SignalType::StochOverbought, 114.3, 0.0, "stochastic"),
        (1700031500, SignalType::RsiDivergenceSell, 114.3, 55.08544410756033, "rsi_divergence"),
        (1700032400, SignalType::StrongBuy, 109.82, 23.543157785791053, "bb_rsi_qf"),
        (1700032400, SignalType::TtmSqueezeSell, 109.82, 0.0, "ttm_squeeze"),
        (1700032400, SignalType::ParabolicSarSell, 109.82, 0.0, "parabolic_sar"),
        (1700032400, SignalType::IbsMeanRevBuy, 109.82, 23.543157785791053, "ibs_mean_rev"),
        (1700033300, SignalType::StrongBuy, 103.73, 10.861491523821798, "bb_rsi_qf"),
        (1700033300, SignalType::SupertrendSell, 103.73, 0.0, "supertrend_adx"),
        (1700033300, SignalType::EmaCrossoverSell, 103.73, 0.0, "ema_crossover"),
        (1700033300, SignalType::IbsMeanRevBuy, 103.73, 10.861491523821798, "ibs_mean_rev"),
        (1700034200, SignalType::StrongBuy, 97.1, 5.778532170178266, "bb_rsi_qf"),
        (1700034200, SignalType::StochRsiBuy, 97.1, 5.778532170178266, "stoch_rsi"),
        (1700034200, SignalType::IbsMeanRevBuy, 97.1, 5.778532170178266, "ibs_mean_rev"),
        (1700035100, SignalType::StrongBuy, 91.14, 3.542869373985525, "bb_rsi_qf"),
        (1700035100, SignalType::StochRsiBuy, 91.14, 3.542869373985525, "stoch_rsi"),
        (1700035100, SignalType::IbsMeanRevBuy, 91.14, 3.542869373985525, "ibs_mean_rev"),
        (1700036000, SignalType::StrongBuy, 86.84, 2.497265919226905, "bb_rsi_qf"),
        (1700036000, SignalType::StochRsiBuy, 86.84, 2.497265919226905, "stoch_rsi"),
        (1700036000, SignalType::IbsMeanRevBuy, 86.84, 2.497265919226905, "ibs_mean_rev"),
        (1700036900, SignalType::StrongBuy, 84.73, 2.0515996675241865, "bb_rsi_qf"),
        (1700036900, SignalType::StochRsiBuy, 84.73, 2.0515996675241865, "stoch_rsi"),
        (1700036900, SignalType::IbsMeanRevBuy, 84.73, 2.0515996675241865, "ibs_mean_rev"),
        (1700037800, SignalType::StochRsiBuy, 84.73, 2.0515996675241865, "stoch_rsi"),
        (1700038700, SignalType::MacdBullish, 86.25, 0.0, "macd"),
        (1700038700, SignalType::StochOversold, 86.25, 0.0, "stochastic"),
        (1700038700, SignalType::StochRsiBuy, 86.25, 24.027435228173786, "stoch_rsi"),
        (1700038700, SignalType::MacdHistReversalBuy, 86.25, 0.0, "macd_hist"),
        (1700040500, SignalType::WeakSell, 90.35, 64.20684970373581, "bb_rsi_qf"),
        (1700040500, SignalType::TtmSqueezeBuy, 90.35, 0.0, "ttm_squeeze"),
        (1700041400, SignalType::StrongSell, 91.56, 72.12355010056535, "bb_rsi_qf"),
        (1700041400, SignalType::StochRsiSell, 91.56, 72.12355010056535, "stoch_rsi"),
        (1700042300, SignalType::StrongSell, 92.0, 75.1245981942091, "bb_rsi_qf"),
        (1700042300, SignalType::EmaCrossoverBuy, 92.0, 0.0, "ema_crossover"),
        (1700042300, SignalType::StochRsiSell, 92.0, 75.1245981942091, "stoch_rsi"),
        (1700043200, SignalType::StochRsiSell, 92.15, 76.42256019062864, "stoch_rsi"),
        (1700044100, SignalType::StrongSell, 92.72, 81.8274092908194, "bb_rsi_qf"),
        (1700044100, SignalType::StochOverbought, 92.72, 0.0, "stochastic"),
        (1700044100, SignalType::StochRsiSell, 92.72, 81.8274092908194, "stoch_rsi"),
        (1700044100, SignalType::ParabolicSarBuy, 92.72, 0.0, "parabolic_sar"),
        (1700045000, SignalType::StrongSell, 94.47, 91.15991037039319, "bb_rsi_qf"),
        (1700045000, SignalType::StochRsiSell, 94.47, 91.15991037039319, "stoch_rsi"),
        (1700045900, SignalType::StrongSell, 97.8, 96.41493954256634, "bb_rsi_qf"),
        (1700045900, SignalType::SupertrendBuy, 97.8, 0.0, "supertrend_adx"),
        (1700045900, SignalType::StochRsiSell, 97.8, 96.41493954256634, "stoch_rsi"),
        (1700045900, SignalType::IbsMeanRevSell, 97.8, 96.41493954256634, "ibs_mean_rev"),
        (1700046800, SignalType::StrongSell, 102.62, 98.43492385906958, "bb_rsi_qf"),
        (1700046800, SignalType::StochRsiSell, 102.62, 98.43492385906958, "stoch_rsi"),
        (1700046800, SignalType::TtmSqueezeBuy, 102.62, 0.0, "ttm_squeeze"),
        (1700046800, SignalType::IbsMeanRevSell, 102.62, 98.43492385906958, "ibs_mean_rev"),
        (1700047700, SignalType::StrongSell, 108.29, 99.21519050458262, "bb_rsi_qf"),
        (1700047700, SignalType::StochRsiSell, 108.29, 99.21519050458262, "stoch_rsi"),
        (1700047700, SignalType::IbsMeanRevSell, 108.29, 99.21519050458262, "ibs_mean_rev"),
        (1700048600, SignalType::StrongSell, 113.77, 99.54444739159021, "bb_rsi_qf"),
        (1700048600, SignalType::StochRsiSell, 113.77, 99.54444739159021, "stoch_rsi"),
        (1700048600, SignalType::IbsMeanRevSell, 113.77, 99.54444739159021, "ibs_mean_rev"),
        (1700049500, SignalType::StrongSell, 117.92, 99.69147978836847, "bb_rsi_qf"),
        (1700049500, SignalType::StochRsiSell, 117.92, 99.69147978836847, "stoch_rsi"),
        (1700049500, SignalType::IbsMeanRevSell, 117.92, 99.69147978836847, "ibs_mean_rev"),
        (1700050400, SignalType::StrongSell, 119.85, 99.74817792312736, "bb_rsi_qf"),
        (1700050400, SignalType::StochRsiSell, 119.85, 99.74817792312736, "stoch_rsi"),
        (1700051300, SignalType::MacdBearish, 119.19, 0.0, "macd"),
        (1700051300, SignalType::StochOverbought, 119.19, 0.0, "stochastic"),
        (1700051300, SignalType::StochRsiSell, 119.19, 91.15518573245427, "stoch_rsi"),
        (1700051300, SignalType::MacdHistReversalSell, 119.19, 0.0, "macd_hist"),
        (1700053100, SignalType::IbsMeanRevBuy, 111.53, 30.87902855144945, "ibs_mean_rev"),
        (1700054000, SignalType::StrongBuy, 106.4, 17.48983161258593, "bb_rsi_qf"),
        (1700054000, SignalType::SupertrendSell, 106.4, 0.0, "supertrend_adx"),
        (1700054000, SignalType::EmaCrossoverSell, 106.4, 0.0, "ema_crossover"),
        (1700054000, SignalType::ParabolicSarSell, 106.4, 0.0, "parabolic_sar"),
        (1700054000, SignalType::IbsMeanRevBuy, 106.4, 17.48983161258593, "ibs_mean_rev"),
        (1700054900, SignalType::StrongBuy, 101.78, 11.029426980764185, "bb_rsi_qf"),
        (1700054900, SignalType::StochRsiBuy, 101.78, 11.029426980764185, "stoch_rsi"),
        (1700054900, SignalType::IbsMeanRevBuy, 101.78, 11.029426980764185, "ibs_mean_rev"),
        (1700055800, SignalType::StrongBuy, 98.39, 7.841427694437044, "bb_rsi_qf"),
        (1700055800, SignalType::StochRsiBuy, 98.39, 7.841427694437044, "stoch_rsi"),
        (1700055800, SignalType::IbsMeanRevBuy, 98.39, 7.841427694437044, "ibs_mean_rev"),
        (1700056700, SignalType::StrongBuy, 96.38, 6.237856448849342, "bb_rsi_qf"),
        (1700056700, SignalType::StochRsiBuy, 96.38, 6.237856448849342, "stoch_rsi"),
        (1700057600, SignalType::StrongBuy, 95.42, 5.440746797322461, "bb_rsi_qf"),
        (1700057600, SignalType::StochOversold, 95.42, 0.0, "stochastic"),
        (1700057600, SignalType::StochRsiBuy, 95.42, 5.440746797322461, "stoch_rsi"),
        (1700057600, SignalType::IbsMeanRevBuy, 95.42, 5.440746797322461, "ibs_mean_rev"),
        (1700058500, SignalType::StrongBuy, 94.82, 4.858680672679256, "bb_rsi_qf"),
        (1700058500, SignalType::StochRsiBuy, 94.82, 4.858680672679256, "stoch_rsi"),
        (1700059400, SignalType::StrongBuy, 93.83, 3.8415152757702344, "bb_rsi_qf"),
        (1700059400, SignalType::MacdBullish, 93.83, 0.0, "macd"),
        (1700059400, SignalType::StochRsiBuy, 93.83, 3.8415152757702344, "stoch_rsi"),
        (1700060300, SignalType::StrongBuy, 92.0, 2.430614526912379, "bb_rsi_qf"),
        (1700060300, SignalType::StochRsiBuy, 92.0, 2.430614526912379, "stoch_rsi"),
        (1700061200, SignalType::StrongBuy, 89.3, 1.3407872072237126, "bb_rsi_qf"),
        (1700061200, SignalType::StochRsiBuy, 89.3, 1.3407872072237126, "stoch_rsi"),
        (1700061200, SignalType::IbsMeanRevBuy, 89.3, 1.3407872072237126, "ibs_mean_rev"),
        (1700062100, SignalType::StrongBuy, 86.26, 0.7630005330586442, "bb_rsi_qf"),
        (1700062100, SignalType::MacdBearish, 86.26, 0.0, "macd"),
        (1700062100, SignalType::StochRsiBuy, 86.26, 0.7630005330586442, "stoch_rsi"),
        (1700062100, SignalType::MacdHistReversalSell, 86.26, 0.0, "macd_hist"),
        (1700062100, SignalType::IbsMeanRevBuy, 86.26, 0.7630005330586442, "ibs_mean_rev"),
        (1700063000, SignalType::StrongBuy, 83.72, 0.4954287706816132, "bb_rsi_qf"),
        (1700063000, SignalType::StochRsiBuy, 83.72, 0.4954287706816132, "stoch_rsi"),
        (1700063000, SignalType::TtmSqueezeSell, 83.72, 0.0, "ttm_squeeze"),
        (1700063000, SignalType::IbsMeanRevBuy, 83.72, 0.4954287706816132, "ibs_mean_rev"),
        (1700063900, SignalType::StrongBuy, 82.64, 0.40487309876706945, "bb_rsi_qf"),
        (1700063900, SignalType::StochOversold, 82.64, 0.0, "stochastic"),
        (1700063900, SignalType::StochRsiBuy, 82.64, 0.40487309876706945, "stoch_rsi"),
        (1700064800, SignalType::MacdBullish, 83.74, 0.0, "macd"),
        (1700064800, SignalType::StochRsiBuy, 83.74, 22.14574573135114, "stoch_rsi"),
        (1700064800, SignalType::MacdHistReversalBuy, 83.74, 0.0, "macd_hist"),
        (1700066600, SignalType::StrongSell, 92.67, 82.58045823850416, "bb_rsi_qf"),
        (1700066600, SignalType::EmaCrossoverBuy, 92.67, 0.0, "ema_crossover"),
        (1700066600, SignalType::TtmSqueezeBuy, 92.67, 0.0, "ttm_squeeze"),
        (1700066600, SignalType::ParabolicSarBuy, 92.67, 0.0, "parabolic_sar"),
        (1700066600, SignalType::IbsMeanRevSell, 92.67, 82.58045823850416, "ibs_mean_rev"),
        (1700067500, SignalType::StrongSell, 99.18, 91.18249259925052, "bb_rsi_qf"),
        (1700067500, SignalType::SupertrendBuy, 99.18, 0.0, "supertrend_adx"),
        (1700067500, SignalType::StochRsiSell, 99.18, 91.18249259925052, "stoch_rsi"),
        (1700067500, SignalType::IbsMeanRevSell, 99.18, 91.18249259925052, "ibs_mean_rev"),
        (1700068400, SignalType::StrongSell, 105.56, 94.89115906310404, "bb_rsi_qf"),
        (1700068400, SignalType::StochRsiSell, 105.56, 94.89115906310404, "stoch_rsi"),
        (1700068400, SignalType::IbsMeanRevSell, 105.56, 94.89115906310404, "ibs_mean_rev"),
        (1700069300, SignalType::StrongSell, 110.68, 96.60836293314006, "bb_rsi_qf"),
        (1700069300, SignalType::StochRsiSell, 110.68, 96.60836293314006, "stoch_rsi"),
        (1700069300, SignalType::IbsMeanRevSell, 110.68, 96.60836293314006, "ibs_mean_rev"),
        (1700070200, SignalType::StrongSell, 113.81, 97.40744740122017, "bb_rsi_qf"),
        (1700070200, SignalType::StochRsiSell, 113.81, 97.40744740122017, "stoch_rsi"),
        (1700070200, SignalType::IbsMeanRevSell, 113.81, 97.40744740122017, "ibs_mean_rev"),
        (1700071100, SignalType::StrongSell, 114.79, 97.66573656199272, "bb_rsi_qf"),
        (1700071100, SignalType::StochRsiSell, 114.79, 97.66573656199272, "stoch_rsi"),
    ],
    );
}

#[test]
fn a_plain_analysis_of_the_swinging_series() {
    let candles = swinging();
    let r = analyze(&candles, &plain());
    assert!(r.macd.is_none() && r.stochastic.is_none() && r.obv.is_none());
    assert!(r.donchian.is_none() && r.keltner.is_none() && r.mfi.is_none() && r.cmf.is_none());
    assert!(r.choppiness.is_none() && r.williams_r.is_none() && r.adx.is_none());
    assert!(r.cvd.is_none() && r.stc.is_none() && r.smc.is_none());
    assert!(r.anchored_vwap.is_none() && r.auto_fib.is_none());
    assert!(r.sma.is_empty() && r.ema.is_empty() && r.hma.is_empty());
    assert!(r.vwap.is_some() && r.atr.is_some() && r.ichimoku.is_some());
    assert!(r.supertrend.is_some() && r.parabolic_sar.is_some());
    expect(
        &r.signals,
        vec![
        (1700003600, SignalType::StrongSell, 116.17, 100.0, "bb_rsi_qf"),
        (1700006300, SignalType::WeakBuy, 110.62, 43.352760686397104, "bb_rsi_qf"),
        (1700008100, SignalType::StrongBuy, 107.49, 25.047660809799936, "bb_rsi_qf"),
        (1700009000, SignalType::StrongBuy, 107.03, 22.40494009464041, "bb_rsi_qf"),
        (1700010800, SignalType::StrongBuy, 105.62, 13.464423730517439, "bb_rsi_qf"),
        (1700011700, SignalType::StrongBuy, 103.27, 6.432364399079702, "bb_rsi_qf"),
        (1700012600, SignalType::StrongBuy, 99.38, 2.800595735527253, "bb_rsi_qf"),
        (1700013500, SignalType::StrongBuy, 94.25, 1.3229826812901138, "bb_rsi_qf"),
        (1700014400, SignalType::StrongBuy, 88.71, 0.7133285196574803, "bb_rsi_qf"),
        (1700015300, SignalType::StrongBuy, 83.86, 0.44440393273808354, "bb_rsi_qf"),
        (1700016200, SignalType::StrongBuy, 80.75, 0.32613948405526116, "bb_rsi_qf"),
        (1700017100, SignalType::StrongBuy, 80.09, 0.3006688606062937, "bb_rsi_qf"),
        (1700019800, SignalType::StrongSell, 91.25, 77.79951117692818, "bb_rsi_qf"),
        (1700020700, SignalType::StrongSell, 96.48, 86.92270867071139, "bb_rsi_qf"),
        (1700021600, SignalType::StrongSell, 100.81, 91.34150790817036, "bb_rsi_qf"),
        (1700022500, SignalType::StrongSell, 103.72, 93.54147493865239, "bb_rsi_qf"),
        (1700023400, SignalType::StrongSell, 105.24, 94.6137419025443, "bb_rsi_qf"),
        (1700024300, SignalType::StrongSell, 105.88, 95.1249271711055, "bb_rsi_qf"),
        (1700026100, SignalType::StrongSell, 107.47, 96.68964482340165, "bb_rsi_qf"),
        (1700027000, SignalType::StrongSell, 109.41, 98.00496358496835, "bb_rsi_qf"),
        (1700027900, SignalType::StrongSell, 112.04, 98.8965396853595, "bb_rsi_qf"),
        (1700028800, SignalType::StrongSell, 114.71, 99.34338986993406, "bb_rsi_qf"),
        (1700029700, SignalType::StrongSell, 116.5, 99.5334019372442, "bb_rsi_qf"),
        (1700032400, SignalType::StrongBuy, 109.82, 23.543157785791053, "bb_rsi_qf"),
        (1700033300, SignalType::StrongBuy, 103.73, 10.861491523821798, "bb_rsi_qf"),
        (1700034200, SignalType::StrongBuy, 97.1, 5.778532170178266, "bb_rsi_qf"),
        (1700035100, SignalType::StrongBuy, 91.14, 3.542869373985525, "bb_rsi_qf"),
        (1700036000, SignalType::StrongBuy, 86.84, 2.497265919226905, "bb_rsi_qf"),
        (1700036900, SignalType::StrongBuy, 84.73, 2.0515996675241865, "bb_rsi_qf"),
        (1700040500, SignalType::WeakSell, 90.35, 64.20684970373581, "bb_rsi_qf"),
        (1700041400, SignalType::StrongSell, 91.56, 72.12355010056535, "bb_rsi_qf"),
        (1700042300, SignalType::StrongSell, 92.0, 75.1245981942091, "bb_rsi_qf"),
        (1700044100, SignalType::StrongSell, 92.72, 81.8274092908194, "bb_rsi_qf"),
        (1700045000, SignalType::StrongSell, 94.47, 91.15991037039319, "bb_rsi_qf"),
        (1700045900, SignalType::StrongSell, 97.8, 96.41493954256634, "bb_rsi_qf"),
        (1700046800, SignalType::StrongSell, 102.62, 98.43492385906958, "bb_rsi_qf"),
        (1700047700, SignalType::StrongSell, 108.29, 99.21519050458262, "bb_rsi_qf"),
        (1700048600, SignalType::StrongSell, 113.77, 99.54444739159021, "bb_rsi_qf"),
        (1700049500, SignalType::StrongSell, 117.92, 99.69147978836847, "bb_rsi_qf"),
        (1700050400, SignalType::StrongSell, 119.85, 99.74817792312736, "bb_rsi_qf"),
        (1700054000, SignalType::StrongBuy, 106.4, 17.48983161258593, "bb_rsi_qf"),
        (1700054900, SignalType::StrongBuy, 101.78, 11.029426980764185, "bb_rsi_qf"),
        (1700055800, SignalType::StrongBuy, 98.39, 7.841427694437044, "bb_rsi_qf"),
        (1700056700, SignalType::StrongBuy, 96.38, 6.237856448849342, "bb_rsi_qf"),
        (1700057600, SignalType::StrongBuy, 95.42, 5.440746797322461, "bb_rsi_qf"),
        (1700058500, SignalType::StrongBuy, 94.82, 4.858680672679256, "bb_rsi_qf"),
        (1700059400, SignalType::StrongBuy, 93.83, 3.8415152757702344, "bb_rsi_qf"),
        (1700060300, SignalType::StrongBuy, 92.0, 2.430614526912379, "bb_rsi_qf"),
        (1700061200, SignalType::StrongBuy, 89.3, 1.3407872072237126, "bb_rsi_qf"),
        (1700062100, SignalType::StrongBuy, 86.26, 0.7630005330586442, "bb_rsi_qf"),
        (1700063000, SignalType::StrongBuy, 83.72, 0.4954287706816132, "bb_rsi_qf"),
        (1700063900, SignalType::StrongBuy, 82.64, 0.40487309876706945, "bb_rsi_qf"),
        (1700066600, SignalType::StrongSell, 92.67, 82.58045823850416, "bb_rsi_qf"),
        (1700067500, SignalType::StrongSell, 99.18, 91.18249259925052, "bb_rsi_qf"),
        (1700068400, SignalType::StrongSell, 105.56, 94.89115906310404, "bb_rsi_qf"),
        (1700069300, SignalType::StrongSell, 110.68, 96.60836293314006, "bb_rsi_qf"),
        (1700070200, SignalType::StrongSell, 113.81, 97.40744740122017, "bb_rsi_qf"),
        (1700071100, SignalType::StrongSell, 114.79, 97.66573656199272, "bb_rsi_qf"),
    ],
    );
}

#[test]
fn strategies_fall_back_on_customary_windows_for_the_swinging_series() {
    let candles = swinging();
    let params = AnalysisParams {
        macd: Some(MacdParams { fast_period: 3, slow_period: 6, signal_period: 4 }),
        signal_strategies: SignalStrategyParams {
            supertrend_adx: true,
            cmf_obv: true,
            ttm_squeeze: true,
            stoch_rsi_combined: true,
            macd_hist_reversal: true,
            ..nothing_on()
        },
        ..plain()
    };
    let r = analyze(&candles, &params);
    assert!(r.adx.is_none() && r.cmf.is_none() && r.obv.is_none() && r.keltner.is_none());
    expect(
        &r.signals,
        vec![
        (1700003600, SignalType::StrongSell, 116.17, 100.0, "bb_rsi_qf"),
        (1700006300, SignalType::WeakBuy, 110.62, 43.352760686397104, "bb_rsi_qf"),
        (1700008100, SignalType::StrongBuy, 107.49, 25.047660809799936, "bb_rsi_qf"),
        (1700009000, SignalType::StrongBuy, 107.03, 22.40494009464041, "bb_rsi_qf"),
        (1700010800, SignalType::StrongBuy, 105.62, 13.464423730517439, "bb_rsi_qf"),
        (1700011700, SignalType::StrongBuy, 103.27, 6.432364399079702, "bb_rsi_qf"),
        (1700012600, SignalType::StrongBuy, 99.38, 2.800595735527253, "bb_rsi_qf"),
        (1700013500, SignalType::StrongBuy, 94.25, 1.3229826812901138, "bb_rsi_qf"),
        (1700014400, SignalType::StrongBuy, 88.71, 0.7133285196574803, "bb_rsi_qf"),
        (1700015300, SignalType::StrongBuy, 83.86, 0.44440393273808354, "bb_rsi_qf"),
        (1700016200, SignalType::StrongBuy, 80.75, 0.32613948405526116, "bb_rsi_qf"),
        (1700017100, SignalType::StrongBuy, 80.09, 0.3006688606062937, "bb_rsi_qf"),
        (1700018000, SignalType::MacdBullish, 82.02, 0.0, "macd"),
        (1700018000, SignalType::MacdHistReversalBuy, 82.02, 0.0, "macd_hist"),
        (1700019800, SignalType::StrongSell, 91.25, 77.79951117692818, "bb_rsi_qf"),
        (1700020700, SignalType::StrongSell, 96.48, 86.92270867071139, "bb_rsi_qf"),
        (1700021600, SignalType::StrongSell, 100.81, 91.34150790817036, "bb_rsi_qf"),
        (1700022500, SignalType::StrongSell, 103.72, 93.54147493865239, "bb_rsi_qf"),
        (1700023400, SignalType::StrongSell, 105.24, 94.6137419025443, "bb_rsi_qf"),
        (1700024300, SignalType::StrongSell, 105.88, 95.1249271711055, "bb_rsi_qf"),
        (1700025200, SignalType::MacdBearish, 106.4, 0.0, "macd"),
        (1700026100, SignalType::StrongSell, 107.47, 96.68964482340165, "bb_rsi_qf"),
        (1700026100, SignalType::CmfObvBuy, 107.47, 0.0, "cmf_obv"),
        (1700027000, SignalType::StrongSell, 109.41, 98.00496358496835, "bb_rsi_qf"),
        (1700027900, SignalType::StrongSell, 112.04, 98.8965396853595, "bb_rsi_qf"),
        (1700028800, SignalType::StrongSell, 114.71, 99.34338986993406, "bb_rsi_qf"),
        (1700028800, SignalType::MacdBullish, 114.71, 0.0, "macd"),
        (1700028800, SignalType::TtmSqueezeBuy, 114.71, 0.0, "ttm_squeeze"),
        (1700028800, SignalType::MacdHistReversalBuy, 114.71, 0.0, "macd_hist"),
        (1700029700, SignalType::StrongSell, 116.5, 99.5334019372442, "bb_rsi_qf"),
        (1700030600, SignalType::MacdBearish, 116.54, 0.0, "macd"),
        (1700032400, SignalType::StrongBuy, 109.82, 23.543157785791053, "bb_rsi_qf"),
        (1700033300, SignalType::StrongBuy, 103.73, 10.861491523821798, "bb_rsi_qf"),
        (1700033300, SignalType::SupertrendSell, 103.73, 0.0, "supertrend_adx"),
        (1700034200, SignalType::StrongBuy, 97.1, 5.778532170178266, "bb_rsi_qf"),
        (1700035100, SignalType::StrongBuy, 91.14, 3.542869373985525, "bb_rsi_qf"),
        (1700036000, SignalType::StrongBuy, 86.84, 2.497265919226905, "bb_rsi_qf"),
        (1700036900, SignalType::StrongBuy, 84.73, 2.0515996675241865, "bb_rsi_qf"),
        (1700038700, SignalType::MacdBullish, 86.25, 0.0, "macd"),
        (1700038700, SignalType::MacdHistReversalBuy, 86.25, 0.0, "macd_hist"),
        (1700040500, SignalType::WeakSell, 90.35, 64.20684970373581, "bb_rsi_qf"),
        (1700041400, SignalType::StrongSell, 91.56, 72.12355010056535, "bb_rsi_qf"),
        (1700042300, SignalType::StrongSell, 92.0, 75.1245981942091, "bb_rsi_qf"),
        (1700044100, SignalType::StrongSell, 92.72, 81.8274092908194, "bb_rsi_qf"),
        (1700045000, SignalType::StrongSell, 94.47, 91.15991037039319, "bb_rsi_qf"),
        (1700045900, SignalType::StrongSell, 97.8, 96.41493954256634, "bb_rsi_qf"),
        (1700046800, SignalType::StrongSell, 102.62, 98.43492385906958, "bb_rsi_qf"),
        (1700047700, SignalType::StrongSell, 108.29, 99.21519050458262, "bb_rsi_qf"),
        (1700048600, SignalType::StrongSell, 113.77, 99.54444739159021, "bb_rsi_qf"),
        (1700048600, SignalType::TtmSqueezeBuy, 113.77, 0.0, "ttm_squeeze"),
        (1700049500, SignalType::StrongSell, 117.92, 99.69147978836847, "bb_rsi_qf"),
        (1700050400, SignalType::StrongSell, 119.85, 99.74817792312736, "bb_rsi_qf"),
        (1700051300, SignalType::MacdBearish, 119.19, 0.0, "macd"),
        (1700051300, SignalType::MacdHistReversalSell, 119.19, 0.0, "macd_hist"),
        (1700054000, SignalType::StrongBuy, 106.4, 17.48983161258593, "bb_rsi_qf"),
        (1700054000, SignalType::SupertrendSell, 106.4, 0.0, "supertrend_adx"),
        (1700054900, SignalType::StrongBuy, 101.78, 11.029426980764185, "bb_rsi_qf"),
        (1700055800, SignalType::StrongBuy, 98.39, 7.841427694437044, "bb_rsi_qf"),
        (1700056700, SignalType::StrongBuy, 96.38, 6.237856448849342, "bb_rsi_qf"),
        (1700057600, SignalType::StrongBuy, 95.42, 5.440746797322461, "bb_rsi_qf"),
        (1700058500, SignalType::StrongBuy, 94.82, 4.858680672679256, "bb_rsi_qf"),
        (1700059400, SignalType::StrongBuy, 93.83, 3.8415152757702344, "bb_rsi_qf"),
        (1700059400, SignalType::MacdBullish, 93.83, 0.0, "macd"),
        (1700059400, SignalType::CmfObvSell, 93.83, 0.0, "cmf_obv"),
        (1700060300, SignalType::StrongBuy, 92.0, 2.430614526912379, "bb_rsi_qf"),
        (1700060300, SignalType::TtmSqueezeBuy, 92.0, 0.0, "ttm_squeeze"),
        (1700061200, SignalType::StrongBuy, 89.3, 1.3407872072237126, "bb_rsi_qf"),
        (1700062100, SignalType::StrongBuy, 86.26, 0.7630005330586442, "bb_rsi_qf"),
        (1700062100, SignalType::MacdBearish, 86.26, 0.0, "macd"),
        (1700062100, SignalType::MacdHistReversalSell, 86.26, 0.0, "macd_hist"),
        (1700063000, SignalType::StrongBuy, 83.72, 0.4954287706816132, "bb_rsi_qf"),
        (1700063900, SignalType::StrongBuy, 82.64, 0.40487309876706945, "bb_rsi_qf"),
        (1700064800, SignalType::MacdBullish, 83.74, 0.0, "macd"),
        (1700064800, SignalType::MacdHistReversalBuy, 83.74, 0.0, "macd_hist"),
        (1700066600, SignalType::StrongSell, 92.67, 82.58045823850416, "bb_rsi_qf"),
        (1700067500, SignalType::StrongSell, 99.18, 91.18249259925052, "bb_rsi_qf"),
        (1700068400, SignalType::StrongSell, 105.56, 94.89115906310404, "bb_rsi_qf"),
        (1700069300, SignalType::StrongSell, 110.68, 96.60836293314006, "bb_rsi_qf"),
        (1700070200, SignalType::StrongSell, 113.81, 97.40744740122017, "bb_rsi_qf"),
        (1700071100, SignalType::StrongSell, 114.79, 97.66573656199272, "bb_rsi_qf"),
    ],
    );
}

#[test]
fn an_analysis_of_nothing_is_empty() {
    let r = analyze::<F>(&[], &full());
    assert!(r.candles.is_empty() && r.bollinger_bands.is_empty() && r.rsi.is_empty());
    assert!(r.signals.is_empty());
    assert!(r.macd.unwrap().data.is_empty());
    assert!(r.vwap.unwrap().data.is_empty());
    assert!(r.supertrend.unwrap().data.is_empty());
    assert!(r.smc.unwrap().data.is_empty());
    assert!(r.auto_fib.unwrap().levels.is_empty());
}
