pub mod candle;
pub mod fundamental;
pub mod indicator;
pub mod params;
pub mod response;
pub mod signal;
pub mod strategy;
pub mod watchlist;

pub use candle::Candle;
pub use params::{AnalysisParams, MarketType};
pub use response::AnalysisResponse;
pub use signal::{SignalPoint, SignalType};
