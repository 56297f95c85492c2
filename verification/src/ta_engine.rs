pub mod adx;
pub mod analysis;
pub mod anchored_vwap;
pub mod atr;
pub mod auto_fib;
pub mod bollinger;
pub mod choppiness;
pub mod cmf;
pub mod cvd;
pub mod donchian;
pub mod ema;
pub mod helpers;
pub mod hma;
pub mod ichimoku;
pub mod keltner;
pub mod macd;
pub mod mfi;
pub mod obv;
pub mod parabolic_sar;
pub mod quant_filter;
pub mod rsi;
pub mod signal;
pub mod sma;
pub mod smc;
pub mod sorting;
pub mod stc;
pub mod stochastic;
pub mod strategies;
pub mod supertrend;
pub mod vwap;
pub mod williams_r;
pub mod wma;

pub use analysis::analyze;
