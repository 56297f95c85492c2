use vstd::prelude::*;

verus! {

/// The kinds of signal that the detectors emit.
#[derive(Debug, Clone, Copy, PartialEq, Eq, Structural)]
pub enum SignalType {
    StrongBuy,
    WeakBuy,
    StrongSell,
    WeakSell,
    MacdBullish,
    MacdBearish,
    StochOversold,
    StochOverbought,
    SupertrendBuy,
    SupertrendSell,
    EmaCrossoverBuy,
    EmaCrossoverSell,
    StochRsiBuy,
    StochRsiSell,
    CmfObvBuy,
    CmfObvSell,
    TtmSqueezeBuy,
    TtmSqueezeSell,
    VwapBreakoutBuy,
    VwapBreakoutSell,
    ParabolicSarBuy,
    ParabolicSarSell,
    MacdHistReversalBuy,
    MacdHistReversalSell,
    IbsMeanRevBuy,
    IbsMeanRevSell,
    RsiDivergenceBuy,
    RsiDivergenceSell,
}

/// One signal: its kind, the candle it stands on, the close of that
/// candle, the RSI there (zero where the detector reads none), and the
/// tag of the detector that emitted it.
#[derive(Debug, Clone)]
pub struct SignalPoint<V> {
    pub time: i64,
    pub signal_type: SignalType,
    pub price: V,
    pub rsi: V,
    pub source: String,
}

/// A signal as contracts speak of it: the tag by its characters.
pub struct SignalView<V> {
    pub time: i64,
    pub signal_type: SignalType,
    pub price: V,
    pub rsi: V,
    pub source: Seq<char>,
}

impl<V> View for SignalPoint<V> {
    type V = SignalView<V>;

    open spec fn view(&self) -> SignalView<V> {
        SignalView {
            time: self.time,
            signal_type: self.signal_type,
            price: self.price,
            rsi: self.rsi,
            source: self.source@,
        }
    }
}

/// The views of a list of signals, in its order.
pub open spec fn signal_views<V>(signals: Seq<SignalPoint<V>>) -> Seq<SignalView<V>> {
    Seq::new(signals.len(), |i: int| signals[i]@)
}

/// Whether the kind is one of the two BB+RSI buys.
pub open spec fn is_buy_spec(signal_type: SignalType) -> bool {
    signal_type == SignalType::StrongBuy || signal_type == SignalType::WeakBuy
}

/// Whether the kind is one of the two BB+RSI sells.
pub open spec fn is_sell_spec(signal_type: SignalType) -> bool {
    signal_type == SignalType::StrongSell || signal_type == SignalType::WeakSell
}

/// Whether the kind is one of the two strong BB+RSI signals.
pub open spec fn is_strong_spec(signal_type: SignalType) -> bool {
    signal_type == SignalType::StrongBuy || signal_type == SignalType::StrongSell
}

/// Whether the kind is one of the two BB+RSI buys.
pub fn is_buy_signal(signal_type: &SignalType) -> (r: bool)
    ensures
        r == is_buy_spec(*signal_type),
{
    matches!(signal_type, SignalType::StrongBuy | SignalType::WeakBuy)
}

/// Whether the kind is one of the two BB+RSI sells.
pub fn is_sell_signal(signal_type: &SignalType) -> (r: bool)
    ensures
        r == is_sell_spec(*signal_type),
{
    matches!(signal_type, SignalType::StrongSell | SignalType::WeakSell)
}

/// Whether the kind is one of the two strong BB+RSI signals.
pub fn is_strong_signal(signal_type: &SignalType) -> (r: bool)
    ensures
        r == is_strong_spec(*signal_type),
{
    matches!(signal_type, SignalType::StrongBuy | SignalType::StrongSell)
}

} // verus!
