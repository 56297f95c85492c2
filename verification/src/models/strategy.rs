use crate::models::candle::Candle;
use std::collections::HashMap;
use vstd::prelude::*;

verus! {

/// The interval of a request that names none: one month.
pub fn default_interval() -> (r: String)
    ensures
        r@ == "1mo"@,
{
    "1mo".to_owned()
}

/// The number of candles of a request that names none.
pub fn default_limit() -> (r: u32)
    ensures
        r == 300,
{
    300
}

/// The candles of several symbols at once.
#[derive(Debug, Clone)]
pub struct MultiSymbolCandlesParams {
    pub symbols: Vec<String>,
    pub interval: String,
    pub limit: u32,
}

/// The candles of each symbol that could be fetched, and the error of
/// each that could not.
#[derive(Debug, Clone)]
pub struct MultiSymbolCandlesResponse<V> {
    pub data: HashMap<String, Vec<Candle<V>>>,
    pub errors: HashMap<String, String>,
}

/// Whose pre-market data is asked for.
#[derive(Debug, Clone)]
pub struct PremarketSnapshotParams {
    pub symbols: Vec<String>,
}

/// What a symbol trades at before the market opens, where the provider
/// reports it.
#[derive(Debug, Clone)]
pub struct PremarketSnapshot<V> {
    pub symbol: String,
    pub pre_market_price: Option<V>,
    pub pre_market_change: Option<V>,
    pub pre_market_volume: Option<V>,
    pub regular_market_price: Option<V>,
    pub regular_market_volume: Option<V>,
}

/// The most symbols that one request is served for.
pub const MAX_STRATEGY_SYMBOLS: usize = 30;

/// The number of candles to fetch for a request: what it asks for, held
/// between 50 and 600.
pub open spec fn strategy_limit_spec(limit: u32) -> u32 {
    if limit < 50 {
        50
    } else if limit > 600 {
        600
    } else {
        limit
    }
}

/// The number of candles to fetch for a request.
pub fn strategy_limit(limit: u32) -> (r: u32)
    ensures
        r == strategy_limit_spec(limit),
{
    if limit < 50 {
        50
    } else if limit > 600 {
        600
    } else {
        limit
    }
}

/// The snapshot of a symbol whose pre-market data could not be had.
pub fn empty_premarket<V>(symbol: &str) -> (r: PremarketSnapshot<V>)
    ensures
        r.symbol@ == symbol@,
        r.pre_market_price is None,
        r.pre_market_change is None,
        r.pre_market_volume is None,
        r.regular_market_price is None,
        r.regular_market_volume is None,
{
    PremarketSnapshot {
        symbol: symbol.to_owned(),
        pre_market_price: None,
        pre_market_change: None,
        pre_market_volume: None,
        regular_market_price: None,
        regular_market_volume: None,
    }
}

} // verus!
