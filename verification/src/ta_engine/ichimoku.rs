use crate::models::candle::Candle;
use crate::models::indicator::{IchimokuPoint, IchimokuResult};
use crate::scalar::{whole, Scalar};
use crate::series::{
    highs, highs_of, larger_range, largest_of, lows, lows_of, smaller_range, smallest_of,
    stands_on,
};
use vstd::prelude::*;

verus! {

/// The middle of the range of `candles[start..end]`: the mean of its
/// highest high and its lowest low.
pub open spec fn mid_price_spec<V: Scalar>(candles: Seq<Candle<V>>, start: int, end: int) -> V {
    larger_range(highs_of(candles), V::lowest(), start, end).plus(
        smaller_range(lows_of(candles), V::highest(), start, end),
    ).over(whole::<V>(2))
}

/// The middle of the `period` candles that end with candle `i`; there is
/// none before the window has filled.
pub open spec fn window_mid<V: Scalar>(candles: Seq<Candle<V>>, period: usize, i: int) -> Option<V> {
    if i + 1 >= period {
        Some(mid_price_spec(candles, i + 1 - period, i + 1))
    } else {
        None
    }
}

/// The lines at candle `i`. The leading span A is the mean of the
/// conversion and the base line where both exist; the lagging line is the
/// close `displacement` candles later, where there is such a candle.
pub open spec fn ichimoku_at<V: Scalar>(
    candles: Seq<Candle<V>>,
    conversion_period: usize,
    base_period: usize,
    span_b_period: usize,
    displacement: usize,
    i: int,
) -> IchimokuPoint<V> {
    let conversion = window_mid(candles, conversion_period, i);
    let base = window_mid(candles, base_period, i);
    IchimokuPoint {
        time: candles[i].time,
        conversion,
        base,
        span_a: match (conversion, base) {
            (Some(c), Some(b)) => Some(c.plus(b).over(whole::<V>(2))),
            _ => None,
        },
        span_b: window_mid(candles, span_b_period, i),
        lagging: if i + displacement < candles.len() {
            Some(candles[i + displacement].close)
        } else {
            None
        },
    }
}

/// The Ichimoku lines of a series of candles.
pub open spec fn ichimoku_spec<V: Scalar>(
    candles: Seq<Candle<V>>,
    conversion_period: usize,
    base_period: usize,
    span_b_period: usize,
    displacement: usize,
) -> Seq<IchimokuPoint<V>> {
    Seq::new(
        candles.len(),
        |i: int|
            ichimoku_at(candles, conversion_period, base_period, span_b_period, displacement, i),
    )
}

fn mid_price<V: Scalar>(
    tops: &Vec<V>,
    bottoms: &Vec<V>,
    Ghost(candles): Ghost<Seq<Candle<V>>>,
    period: usize,
    i: usize,
) -> (r: Option<V>)
    requires
        tops@ == highs_of(candles),
        bottoms@ == lows_of(candles),
        i < candles.len(),
    ensures
        r == window_mid(candles, period, i as int),
{
    let n = tops.len();
    if i + 1 >= period {
        let start = i + 1 - period;
        let highest = largest_of(tops.as_slice(), V::lowest(), start, i + 1);
        let lowest = smallest_of(bottoms.as_slice(), V::highest(), start, i + 1);
        Some(highest.plus(lowest).over(whole(2)))
    } else {
        None
    }
}

/// The Ichimoku lines of a series of candles, one point for each candle.
pub fn calculate<V: Scalar>(
    candles: &[Candle<V>],
    conversion_period: usize,
    base_period: usize,
    span_b_period: usize,
    displacement: usize,
) -> (r: IchimokuResult<V>)
    ensures
        r.data@.len() == candles@.len(),
        stands_on(r.data@, candles@, 0),
        r.data@ == ichimoku_spec(
            candles@,
            conversion_period,
            base_period,
            span_b_period,
            displacement,
        ),
{
    let n = candles.len();
    let tops = highs(candles);
    let bottoms = lows(candles);
    let mut data: Vec<IchimokuPoint<V>> = Vec::with_capacity(n);
    let mut i: usize = 0;
    while i < n
        invariant
            i <= n,
            n == candles@.len(),
            tops@ == highs_of(candles@),
            bottoms@ == lows_of(candles@),
            data@.len() == i,
            forall|j: int|
                0 <= j < i ==> data@[j] == ichimoku_at(
                    candles@,
                    conversion_period,
                    base_period,
                    span_b_period,
                    displacement,
                    j,
                ),
        decreases n - i,
    {
        let conversion = mid_price(&tops, &bottoms, Ghost(candles@), conversion_period, i);
        let base = mid_price(&tops, &bottoms, Ghost(candles@), base_period, i);
        let span_a = match (conversion, base) {
            (Some(c), Some(b)) => Some(c.plus(b).over(whole(2))),
            _ => None,
        };
        let span_b = mid_price(&tops, &bottoms, Ghost(candles@), span_b_period, i);
        let lagging = if displacement < n - i {
            Some(candles[i + displacement].close)
        } else {
            None
        };
        data.push(IchimokuPoint { time: candles[i].time, conversion, base, span_a, span_b, lagging });
        i += 1;
    }
    assert(data@ =~= ichimoku_spec(
        candles@,
        conversion_period,
        base_period,
        span_b_period,
        displacement,
    ));
    IchimokuResult { data }
}

} // verus!
