use crate::models::candle::{ascending, Candle};
use crate::scalar::{whole, Scalar};
use vstd::prelude::*;

verus! {

/// A value that stands on a point in time.
pub trait Timed {
    /// The time, in seconds since the Unix epoch.
    spec fn time_spec(&self) -> i64;

    #[verifier::when_used_as_spec(time_spec)]
    fn time_of(&self) -> (t: i64)
        ensures
            t == self.time_spec(),
    ;
}

impl<V> Timed for Candle<V> {
    open spec fn time_spec(&self) -> i64 {
        self.time
    }

    fn time_of(&self) -> (t: i64) {
        self.time
    }
}

/// The times of a series of points.
pub open spec fn times_of<P: Timed>(points: Seq<P>) -> Seq<i64> {
    Seq::new(points.len(), |i: int| points[i].time_of())
}

/// Whether the `k`-th point stands on candle `k + offset`, for every
/// point of the series.
pub open spec fn stands_on<P: Timed, V>(points: Seq<P>, candles: Seq<Candle<V>>, offset: int) -> bool {
    forall|k: int|
        0 <= k < points.len() ==> 0 <= k + offset < candles.len() && (#[trigger] points[k]).time_of()
            == candles[k + offset].time
}

/// A series that stands on ascending candles, point by point, has
/// strictly growing times.
pub proof fn lemma_series_times_ascend<P: Timed, V>(
    points: Seq<P>,
    candles: Seq<Candle<V>>,
    offset: int,
)
    requires
        stands_on(points, candles, offset),
        ascending(times_of(candles)),
    ensures
        ascending(times_of(points)),
{
    assert forall|i: int, j: int| 0 <= i < j < times_of(points).len() implies times_of(points)[i]
        < times_of(points)[j] by {
        assert(points[i].time_of() == candles[i + offset].time);
        assert(points[j].time_of() == candles[j + offset].time);
        assert(times_of(candles)[i + offset] < times_of(candles)[j + offset]);
    }
}

/// Whether each of the times is one of the others.
pub open spec fn times_among(times: Seq<i64>, others: Seq<i64>) -> bool {
    forall|k: int| 0 <= k < times.len() ==> others.contains(#[trigger] times[k])
}

/// Every time of a series that stands on candles is the time of one of
/// those candles.
pub proof fn lemma_series_times_are_candle_times<P: Timed, V>(
    points: Seq<P>,
    candles: Seq<Candle<V>>,
    offset: int,
)
    requires
        stands_on(points, candles, offset),
    ensures
        forall|k: int|
            0 <= k < points.len() ==> times_of(candles).contains(#[trigger] times_of(points)[k]),
        times_among(times_of(points), times_of(candles)),
{
    assert forall|k: int| 0 <= k < points.len() implies times_of(candles).contains(
        #[trigger] times_of(points)[k],
    ) by {
        assert(points[k].time_of() == candles[k + offset].time);
        assert(times_of(candles)[k + offset] == times_of(points)[k]);
    }
}

/// The highs of a series of candles.
pub open spec fn highs_of<V>(candles: Seq<Candle<V>>) -> Seq<V> {
    Seq::new(candles.len(), |i: int| candles[i].high)
}

/// The lows of a series of candles.
pub open spec fn lows_of<V>(candles: Seq<Candle<V>>) -> Seq<V> {
    Seq::new(candles.len(), |i: int| candles[i].low)
}

/// The closing prices of a series of candles.
pub open spec fn closes_of<V>(candles: Seq<Candle<V>>) -> Seq<V> {
    Seq::new(candles.len(), |i: int| candles[i].close)
}

/// The volumes of a series of candles.
pub open spec fn volumes_of<V>(candles: Seq<Candle<V>>) -> Seq<V> {
    Seq::new(candles.len(), |i: int| candles[i].volume)
}

/// A copy of the candles, in their order.
pub fn copy_of<V: Scalar>(candles: &[Candle<V>]) -> (r: Vec<Candle<V>>)
    ensures
        r@ == candles@,
{
    let mut r: Vec<Candle<V>> = Vec::with_capacity(candles.len());
    let mut i: usize = 0;
    while i < candles.len()
        invariant
            i <= candles@.len(),
            r@.len() == i,
            forall|k: int| 0 <= k < i ==> r@[k] == candles@[k],
        decreases candles@.len() - i,
    {
        r.push(candles[i]);
        i += 1;
    }
    assert(r@ =~= candles@);
    r
}

/// The closing prices of a series of candles.
pub fn closes<V: Scalar>(candles: &[Candle<V>]) -> (r: Vec<V>)
    ensures
        r@ == closes_of(candles@),
{
    let mut r: Vec<V> = Vec::with_capacity(candles.len());
    let mut i: usize = 0;
    while i < candles.len()
        invariant
            i <= candles@.len(),
            r@.len() == i,
            forall|k: int| 0 <= k < i ==> r@[k] == candles@[k].close,
        decreases candles@.len() - i,
    {
        r.push(candles[i].close);
        i += 1;
    }
    assert(r@ =~= closes_of(candles@));
    r
}

/// The highs of a series of candles.
pub fn highs<V: Scalar>(candles: &[Candle<V>]) -> (r: Vec<V>)
    ensures
        r@ == highs_of(candles@),
{
    let mut r: Vec<V> = Vec::with_capacity(candles.len());
    let mut i: usize = 0;
    while i < candles.len()
        invariant
            i <= candles@.len(),
            r@.len() == i,
            forall|k: int| 0 <= k < i ==> r@[k] == candles@[k].high,
        decreases candles@.len() - i,
    {
        r.push(candles[i].high);
        i += 1;
    }
    assert(r@ =~= highs_of(candles@));
    r
}

/// The lows of a series of candles.
pub fn lows<V: Scalar>(candles: &[Candle<V>]) -> (r: Vec<V>)
    ensures
        r@ == lows_of(candles@),
{
    let mut r: Vec<V> = Vec::with_capacity(candles.len());
    let mut i: usize = 0;
    while i < candles.len()
        invariant
            i <= candles@.len(),
            r@.len() == i,
            forall|k: int| 0 <= k < i ==> r@[k] == candles@[k].low,
        decreases candles@.len() - i,
    {
        r.push(candles[i].low);
        i += 1;
    }
    assert(r@ =~= lows_of(candles@));
    r
}

/// The values of `s[lo..hi]` added up from the left, starting from zero.
pub open spec fn sum_range<V: Scalar>(s: Seq<V>, lo: int, hi: int) -> V
    decreases hi - lo,
{
    if hi <= lo {
        whole::<V>(0)
    } else {
        sum_range(s, lo, hi - 1).plus(s[hi - 1])
    }
}

/// `seed` made larger by each value of `s[lo..hi]` in turn.
pub open spec fn larger_range<V: Scalar>(s: Seq<V>, seed: V, lo: int, hi: int) -> V
    decreases hi - lo,
{
    if hi <= lo {
        seed
    } else {
        larger_range(s, seed, lo, hi - 1).larger(s[hi - 1])
    }
}

/// `seed` made smaller by each value of `s[lo..hi]` in turn.
pub open spec fn smaller_range<V: Scalar>(s: Seq<V>, seed: V, lo: int, hi: int) -> V
    decreases hi - lo,
{
    if hi <= lo {
        seed
    } else {
        smaller_range(s, seed, lo, hi - 1).smaller(s[hi - 1])
    }
}

/// The values of `values[lo..hi]` added up from the left.
pub fn sum_of<V: Scalar>(values: &[V], lo: usize, hi: usize) -> (r: V)
    requires
        lo <= hi <= values@.len(),
    ensures
        r == sum_range(values@, lo as int, hi as int),
{
    let mut acc: V = whole(0);
    let mut i: usize = lo;
    while i < hi
        invariant
            lo <= i <= hi <= values@.len(),
            acc == sum_range(values@, lo as int, i as int),
        decreases hi - i,
    {
        acc = acc.plus(values[i]);
        i += 1;
    }
    acc
}

/// `seed` made larger by each value of `values[lo..hi]` in turn.
pub fn largest_of<V: Scalar>(values: &[V], seed: V, lo: usize, hi: usize) -> (r: V)
    requires
        lo <= hi <= values@.len(),
    ensures
        r == larger_range(values@, seed, lo as int, hi as int),
{
    let mut acc: V = seed;
    let mut i: usize = lo;
    while i < hi
        invariant
            lo <= i <= hi <= values@.len(),
            acc == larger_range(values@, seed, lo as int, i as int),
        decreases hi - i,
    {
        acc = acc.larger(values[i]);
        i += 1;
    }
    acc
}

/// `seed` made smaller by each value of `values[lo..hi]` in turn.
pub fn smallest_of<V: Scalar>(values: &[V], seed: V, lo: usize, hi: usize) -> (r: V)
    requires
        lo <= hi <= values@.len(),
    ensures
        r == smaller_range(values@, seed, lo as int, hi as int),
{
    let mut acc: V = seed;
    let mut i: usize = lo;
    while i < hi
        invariant
            lo <= i <= hi <= values@.len(),
            acc == smaller_range(values@, seed, lo as int, i as int),
        decreases hi - i,
    {
        acc = acc.smaller(values[i]);
        i += 1;
    }
    acc
}

} // verus!
