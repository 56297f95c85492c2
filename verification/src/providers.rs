use crate::models::candle::Candle;
use crate::scalar::{whole, Scalar};
use crate::text::same_text;
use vstd::prelude::*;

verus! {

/// The range of history to ask the general-markets provider for, by the
/// interval of the candles.
pub open spec fn interval_to_range_spec(interval: Seq<char>) -> Seq<char> {
    if interval == "1m"@ {
        "7d"@
    } else if interval == "5m"@ || interval == "15m"@ {
        "60d"@
    } else if interval == "1w"@ {
        "10y"@
    } else if interval == "1M"@ {
        "max"@
    } else {
        "2y"@
    }
}

/// The range of history to ask the general-markets provider for.
pub fn interval_to_range(interval: &str) -> (r: &'static str)
    ensures
        r@ == interval_to_range_spec(interval@),
{
    if same_text(interval, "1m") {
        "7d"
    } else if same_text(interval, "5m") || same_text(interval, "15m") {
        "60d"
    } else if same_text(interval, "1w") {
        "10y"
    } else if same_text(interval, "1M") {
        "max"
    } else {
        "2y"
    }
}

/// The general-markets provider's name for an interval; it serves what
/// it has no name for as daily candles.
pub open spec fn map_interval_spec(interval: Seq<char>) -> Seq<char> {
    if interval == "1m"@ {
        "1m"@
    } else if interval == "5m"@ {
        "5m"@
    } else if interval == "15m"@ {
        "15m"@
    } else if interval == "1h"@ {
        "1h"@
    } else if interval == "1w"@ {
        "1wk"@
    } else if interval == "1M"@ {
        "1mo"@
    } else {
        "1d"@
    }
}

/// The general-markets provider's name for an interval.
pub fn map_interval(interval: &str) -> (r: &'static str)
    ensures
        r@ == map_interval_spec(interval@),
{
    if same_text(interval, "1m") {
        "1m"
    } else if same_text(interval, "5m") {
        "5m"
    } else if same_text(interval, "15m") {
        "15m"
    } else if same_text(interval, "1h") {
        "1h"
    } else if same_text(interval, "1w") {
        "1wk"
    } else if same_text(interval, "1M") {
        "1mo"
    } else {
        "1d"
    }
}

/// The time of a kline in seconds, from its opening time in
/// milliseconds.
pub open spec fn kline_time_spec(open_time_ms: i64) -> i64 {
    if open_time_ms >= 0 {
        (open_time_ms / 1000) as i64
    } else {
        (-((-open_time_ms) / 1000)) as i64
    }
}

/// The time of a kline in seconds; a part of a second is cut off towards
/// zero.
pub fn kline_time(open_time_ms: i64) -> (r: i64)
    ensures
        r == kline_time_spec(open_time_ms),
{
    if open_time_ms >= 0 {
        open_time_ms / 1000
    } else if open_time_ms == i64::MIN {
        -9_223_372_036_854_775
    } else {
        -((-open_time_ms) / 1000)
    }
}

/// One row of a chart as the provider reports it: each field may be
/// missing.
#[derive(Debug, Clone, Copy)]
pub struct ChartRow<V> {
    pub time: Option<i64>,
    pub open: Option<V>,
    pub high: Option<V>,
    pub low: Option<V>,
    pub close: Option<V>,
    pub volume: Option<V>,
}

/// The candle of a row: there is none where the time or a price is
/// missing; a missing volume counts as zero.
pub open spec fn row_candle<V: Scalar>(row: ChartRow<V>) -> Option<Candle<V>> {
    match (row.time, row.open, row.high, row.low, row.close) {
        (Some(time), Some(open), Some(high), Some(low), Some(close)) => Some(
            Candle {
                time,
                open,
                high,
                low,
                close,
                volume: match row.volume {
                    Some(volume) => volume,
                    None => whole::<V>(0),
                },
            },
        ),
        _ => None,
    }
}

/// The candles of the first `n` rows, in their order.
pub open spec fn chart_candles_spec<V: Scalar>(rows: Seq<ChartRow<V>>, n: int) -> Seq<Candle<V>>
    decreases n,
{
    if n <= 0 {
        Seq::empty()
    } else {
        match row_candle(rows[n - 1]) {
            Some(candle) => chart_candles_spec(rows, n - 1).push(candle),
            None => chart_candles_spec(rows, n - 1),
        }
    }
}

/// Why a provider's answer gave no candles.
#[derive(Debug, Clone, Copy, PartialEq, Eq, Structural)]
pub enum ChartError {
    /// No row of the general-markets chart was complete.
    NoValidCandles,
    /// No kline of the crypto provider was complete.
    NoKlines,
}

/// The message of an error.
pub open spec fn message_spec(error: ChartError) -> Seq<char> {
    match error {
        ChartError::NoValidCandles => "No valid candle data from Yahoo Finance"@,
        ChartError::NoKlines => "No candle data received from Binance"@,
    }
}

impl ChartError {
    /// The message that a caller is shown.
    pub fn message(&self) -> (r: &'static str)
        ensures
            r@ == message_spec(*self),
    {
        match self {
            ChartError::NoValidCandles => "No valid candle data from Yahoo Finance",
            ChartError::NoKlines => "No candle data received from Binance",
        }
    }
}

/// The candles of a chart: those of its complete rows, or an error where
/// there is none.
pub fn chart_candles<V: Scalar>(rows: &[ChartRow<V>]) -> (r: Result<Vec<Candle<V>>, ChartError>)
    ensures
        match r {
            Ok(candles) => candles@ == chart_candles_spec(rows@, rows@.len() as int)
                && candles@.len() > 0,
            Err(error) => error == ChartError::NoValidCandles && chart_candles_spec(
                rows@,
                rows@.len() as int,
            ).len() == 0,
        },
{
    let n = rows.len();
    let mut candles: Vec<Candle<V>> = Vec::new();
    let mut i: usize = 0;
    while i < n
        invariant
            i <= n,
            n == rows@.len(),
            candles@ == chart_candles_spec(rows@, i as int),
        decreases n - i,
    {
        let row = rows[i];
        match (row.time, row.open, row.high, row.low, row.close) {
            (Some(time), Some(open), Some(high), Some(low), Some(close)) => {
                let volume = match row.volume {
                    Some(volume) => volume,
                    None => whole(0),
                };
                candles.push(Candle { time, open, high, low, close, volume });
            },
            _ => {},
        }
        i += 1;
    }
    if candles.len() == 0 {
        Err(ChartError::NoValidCandles)
    } else {
        Ok(candles)
    }
}

/// The candle of a kline, whose time is in milliseconds: there is none
/// where any field is missing.
pub open spec fn kline_candle<V: Scalar>(row: ChartRow<V>) -> Option<Candle<V>> {
    match (row.time, row.open, row.high, row.low, row.close, row.volume) {
        (Some(time), Some(open), Some(high), Some(low), Some(close), Some(volume)) => Some(
            Candle { time: kline_time_spec(time), open, high, low, close, volume },
        ),
        _ => None,
    }
}

/// The candles of the first `n` klines, in their order.
pub open spec fn kline_candles_spec<V: Scalar>(rows: Seq<ChartRow<V>>, n: int) -> Seq<Candle<V>>
    decreases n,
{
    if n <= 0 {
        Seq::empty()
    } else {
        match kline_candle(rows[n - 1]) {
            Some(candle) => kline_candles_spec(rows, n - 1).push(candle),
            None => kline_candles_spec(rows, n - 1),
        }
    }
}

/// The candles of the crypto provider's klines: those of the complete
/// ones, or an error where there is none.
pub fn kline_candles<V: Scalar>(rows: &[ChartRow<V>]) -> (r: Result<Vec<Candle<V>>, ChartError>)
    ensures
        match r {
            Ok(candles) => candles@ == kline_candles_spec(rows@, rows@.len() as int)
                && candles@.len() > 0,
            Err(error) => error == ChartError::NoKlines && kline_candles_spec(
                rows@,
                rows@.len() as int,
            ).len() == 0,
        },
{
    let n = rows.len();
    let mut candles: Vec<Candle<V>> = Vec::new();
    let mut i: usize = 0;
    while i < n
        invariant
            i <= n,
            n == rows@.len(),
            candles@ == kline_candles_spec(rows@, i as int),
        decreases n - i,
    {
        let row = rows[i];
        match (row.time, row.open, row.high, row.low, row.close, row.volume) {
            (Some(time), Some(open), Some(high), Some(low), Some(close), Some(volume)) => {
                candles.push(Candle { time: kline_time(time), open, high, low, close, volume });
            },
            _ => {},
        }
        i += 1;
    }
    if candles.len() == 0 {
        Err(ChartError::NoKlines)
    } else {
        Ok(candles)
    }
}

} // verus!
