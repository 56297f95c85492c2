use crate::models::params::MarketType;
use vstd::prelude::*;

verus! {

/// Whose fundamentals are asked for.
#[derive(Debug, Clone)]
pub struct FundamentalsParams {
    pub symbol: String,
    pub market: MarketType,
}

/// The fundamentals of a symbol, each where the provider reports it.
#[derive(Debug, Clone)]
pub struct FundamentalsResponse<V> {
    pub symbol: String,
    pub market: MarketType,
    pub short_name: Option<String>,
    pub currency: Option<String>,
    pub market_cap: Option<V>,
    pub trailing_pe: Option<V>,
    pub forward_pe: Option<V>,
    pub price_to_book: Option<V>,
    pub trailing_eps: Option<V>,
    pub forward_eps: Option<V>,
    pub dividend_yield: Option<V>,
    pub return_on_equity: Option<V>,
    pub debt_to_equity: Option<V>,
    pub revenue_growth: Option<V>,
    pub gross_margins: Option<V>,
    pub operating_margins: Option<V>,
    pub profit_margins: Option<V>,
    pub fifty_two_week_high: Option<V>,
    pub fifty_two_week_low: Option<V>,
    pub average_volume: Option<V>,
}

/// Whether a market has fundamentals: every market but crypto.
pub open spec fn has_fundamentals_spec(market: MarketType) -> bool {
    market != MarketType::Crypto
}

/// Whether the fundamentals of a symbol on this market can be asked for.
pub fn has_fundamentals(market: &MarketType) -> (r: bool)
    ensures
        r == has_fundamentals_spec(*market),
{
    !matches!(market, MarketType::Crypto)
}

} // verus!
