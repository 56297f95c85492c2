use crate::models::candle::Candle;
use crate::models::params::MarketType;
use crate::scalar::{whole, Scalar};
use vstd::prelude::*;

verus! {

/// The interval of a request that names none: one day.
pub fn default_interval() -> (r: String)
    ensures
        r@ == "1d"@,
{
    "1d".to_owned()
}

/// The number of candles of a request that names none.
pub fn default_limit() -> (r: u32)
    ensures
        r == 96,
{
    96
}

/// One symbol of a watchlist.
#[derive(Debug, Clone)]
pub struct WatchlistItemRequest {
    pub symbol: String,
    pub market: MarketType,
}

/// The symbols to take snapshots of, and of which candles.
#[derive(Debug, Clone)]
pub struct WatchlistSnapshotParams {
    pub items: Vec<WatchlistItemRequest>,
    pub interval: String,
    pub limit: u32,
}

/// Where a symbol stands: its last close, the change against the close
/// before, the range of the candles looked at, and their last closes.
#[derive(Debug, Clone)]
pub struct WatchlistSnapshot<V> {
    pub symbol: String,
    pub market: MarketType,
    pub last_price: V,
    pub change: V,
    pub change_pct: V,
    pub high: V,
    pub low: V,
    pub sparkline: Vec<V>,
}

/// A snapshot as contracts speak of it.
pub struct WatchlistSnapshotView<V> {
    pub symbol: Seq<char>,
    pub market: MarketType,
    pub last_price: V,
    pub change: V,
    pub change_pct: V,
    pub high: V,
    pub low: V,
    pub sparkline: Seq<V>,
}

impl<V> View for WatchlistSnapshot<V> {
    type V = WatchlistSnapshotView<V>;

    open spec fn view(&self) -> WatchlistSnapshotView<V> {
        WatchlistSnapshotView {
            symbol: self.symbol@,
            market: self.market,
            last_price: self.last_price,
            change: self.change,
            change_pct: self.change_pct,
            high: self.high,
            low: self.low,
            sparkline: self.sparkline@,
        }
    }
}

/// The most items that one request is served for.
pub const MAX_WATCHLIST_ITEMS: usize = 24;

/// The most closes that a snapshot carries.
pub const SPARKLINE_LENGTH: usize = 32;

/// The number of candles that a snapshot looks at: what the request asks
/// for, held between 32 and 240.
pub open spec fn watchlist_limit_spec(limit: u32) -> usize {
    if limit < 32 {
        32
    } else if limit > 240 {
        240
    } else {
        limit as usize
    }
}

/// The number of candles that a snapshot looks at.
pub fn watchlist_limit(limit: u32) -> (r: usize)
    ensures
        r == watchlist_limit_spec(limit),
{
    if limit < 32 {
        32
    } else if limit > 240 {
        240
    } else {
        limit as usize
    }
}

/// The highest high of `candles[from..to]`: the least finite value,
/// replaced by each high above what came before.
pub open spec fn tail_high<V: Scalar>(candles: Seq<Candle<V>>, from: int, to: int) -> V
    decreases to - from,
{
    if to <= from {
        V::lowest()
    } else {
        let so_far = tail_high(candles, from, to - 1);
        if so_far.below(candles[to - 1].high) {
            candles[to - 1].high
        } else {
            so_far
        }
    }
}

/// The lowest low of `candles[from..to]`: the greatest finite value,
/// replaced by each low below what came before.
pub open spec fn tail_low<V: Scalar>(candles: Seq<Candle<V>>, from: int, to: int) -> V
    decreases to - from,
{
    if to <= from {
        V::highest()
    } else {
        let so_far = tail_low(candles, from, to - 1);
        if candles[to - 1].low.below(so_far) {
            candles[to - 1].low
        } else {
            so_far
        }
    }
}

/// The snapshot of a symbol from its candles, of which the last `limit`
/// count. There is none for fewer than two candles, nor for a limit
/// under two. The change is that of the last close against the close
/// before, also in hundredths of that close (zero where that close is
/// next to zero); the sparkline holds the last closes, at most
/// thirty-two.
pub open spec fn snapshot_spec<V: Scalar>(
    symbol: Seq<char>,
    market: MarketType,
    candles: Seq<Candle<V>>,
    limit: usize,
) -> Option<WatchlistSnapshotView<V>> {
    if candles.len() < 2 || limit < 2 {
        None
    } else {
        let n = candles.len() as int;
        let from = if n > limit {
            n - limit
        } else {
            0
        };
        let shown = if n - from > SPARKLINE_LENGTH {
            SPARKLINE_LENGTH as int
        } else {
            n - from
        };
        let last = candles[n - 1].close;
        let before = candles[n - 2].close;
        let change = last.minus(before);
        Some(
            WatchlistSnapshotView {
                symbol,
                market,
                last_price: last,
                change,
                change_pct: if V::epsilon().below(before.magnitude()) {
                    change.over(before).times(whole::<V>(100))
                } else {
                    whole::<V>(0)
                },
                high: tail_high(candles, from, n),
                low: tail_low(candles, from, n),
                sparkline: Seq::new(shown as nat, |k: int| candles[n - shown + k].close),
            },
        )
    }
}

/// The view of a snapshot that may be missing.
pub open spec fn snapshot_view<V>(r: Option<WatchlistSnapshot<V>>) -> Option<
    WatchlistSnapshotView<V>,
> {
    match r {
        Some(s) => Some(s@),
        None => None,
    }
}

/// The snapshot of a symbol from its candles.
pub fn watchlist_snapshot<V: Scalar>(
    symbol: &str,
    market: MarketType,
    candles: &[Candle<V>],
    limit: usize,
) -> (r: Option<WatchlistSnapshot<V>>)
    ensures
        snapshot_view(r) == snapshot_spec(symbol@, market, candles@, limit),
{
    let n = candles.len();
    if n < 2 || limit < 2 {
        return None;
    }
    let from = if n > limit {
        n - limit
    } else {
        0
    };
    let last = candles[n - 1].close;
    let before = candles[n - 2].close;
    let change = last.minus(before);
    let change_pct = if V::epsilon().below(before.magnitude()) {
        change.over(before).times(whole(100))
    } else {
        whole(0)
    };
    let mut high = V::lowest();
    let mut low = V::highest();
    let mut i: usize = from;
    while i < n
        invariant
            from <= i <= n,
            n == candles@.len(),
            high == tail_high(candles@, from as int, i as int),
            low == tail_low(candles@, from as int, i as int),
        decreases n - i,
    {
        if high.below(candles[i].high) {
            high = candles[i].high;
        }
        if candles[i].low.below(low) {
            low = candles[i].low;
        }
        i += 1;
    }
    let shown = if n - from > SPARKLINE_LENGTH {
        SPARKLINE_LENGTH
    } else {
        n - from
    };
    let mut sparkline: Vec<V> = Vec::with_capacity(shown);
    let mut k: usize = 0;
    while k < shown
        invariant
            k <= shown <= n,
            n == candles@.len(),
            sparkline@.len() == k,
            forall|j: int| 0 <= j < k ==> sparkline@[j] == candles@[n - shown + j].close,
        decreases shown - k,
    {
        sparkline.push(candles[n - shown + k].close);
        k += 1;
    }
    let snapshot = WatchlistSnapshot {
        symbol: symbol.to_owned(),
        market,
        last_price: last,
        change,
        change_pct,
        high,
        low,
        sparkline,
    };
    assert(snapshot@.sparkline =~= snapshot_spec(symbol@, market, candles@, limit).unwrap().sparkline);
    Some(snapshot)
}

/// The views of a list of snapshots, in its order.
pub open spec fn snapshot_views<V>(snapshots: Seq<WatchlistSnapshot<V>>) -> Seq<
    WatchlistSnapshotView<V>,
> {
    Seq::new(snapshots.len(), |i: int| snapshots[i]@)
}

/// The snapshots of the first `n` items: one for each item whose candles
/// were fetched and give a snapshot, in the order of the items.
pub open spec fn snapshots_spec<V: Scalar>(
    items: Seq<WatchlistItemRequest>,
    fetched: Seq<Option<Vec<Candle<V>>>>,
    limit: usize,
    n: int,
) -> Seq<WatchlistSnapshotView<V>>
    decreases n,
{
    if n <= 0 {
        Seq::empty()
    } else {
        let before = snapshots_spec(items, fetched, limit, n - 1);
        if n - 1 < fetched.len() {
            match fetched[n - 1] {
                Some(candles) => match snapshot_spec(
                    items[n - 1].symbol@,
                    items[n - 1].market,
                    candles@,
                    limit,
                ) {
                    Some(snapshot) => before.push(snapshot),
                    None => before,
                },
                None => before,
            }
        } else {
            before
        }
    }
}

/// How many items of a watchlist are looked at: all of them, but at most
/// `MAX_WATCHLIST_ITEMS`.
pub open spec fn items_looked_at(n: nat) -> int {
    if n > MAX_WATCHLIST_ITEMS {
        MAX_WATCHLIST_ITEMS as int
    } else {
        n as int
    }
}

/// The snapshots of a watchlist from the candles that were fetched for its
/// items. `fetched[i]` holds the candles of item `i`, or nothing where
/// they could not be had; an item without candles, or without a snapshot,
/// is passed over, and so is every item after the first
/// `MAX_WATCHLIST_ITEMS`.
pub fn watchlist_snapshots<V: Scalar>(
    items: &[WatchlistItemRequest],
    fetched: &[Option<Vec<Candle<V>>>],
    limit: usize,
) -> (r: Vec<WatchlistSnapshot<V>>)
    ensures
        snapshot_views(r@) == snapshots_spec(
            items@,
            fetched@,
            limit,
            items_looked_at(items@.len()),
        ),
{
    let count = if items.len() > MAX_WATCHLIST_ITEMS {
        MAX_WATCHLIST_ITEMS
    } else {
        items.len()
    };
    let mut snapshots: Vec<WatchlistSnapshot<V>> = Vec::new();
    assert(snapshot_views(snapshots@) =~= Seq::<WatchlistSnapshotView<V>>::empty());
    let mut i: usize = 0;
    while i < count
        invariant
            i <= count <= items@.len(),
            snapshot_views(snapshots@) == snapshots_spec(items@, fetched@, limit, i as int),
        decreases count - i,
    {
        if i < fetched.len() {
            if let Some(candles) = &fetched[i] {
                if let Some(snapshot) = watchlist_snapshot(
                    items[i].symbol.as_str(),
                    items[i].market,
                    candles.as_slice(),
                    limit,
                ) {
                    let ghost before = snapshot_views(snapshots@);
                    let ghost view = snapshot@;
                    snapshots.push(snapshot);
                    assert(snapshot_views(snapshots@) =~= before.push(view));
                }
            }
        }
        i += 1;
    }
    snapshots
}

} // verus!
