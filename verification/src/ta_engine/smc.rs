use crate::models::candle::Candle;
use crate::models::indicator::{SmcEvent, SmcResult};
use crate::scalar::Scalar;
use crate::series::times_of;
use crate::ta_engine::helpers::{
    enough_for_swings, has_swings, is_swing_high, is_swing_low, swing_high, swing_low,
};
use vstd::prelude::*;

verus! {

/// An event as contracts speak of it: its type by its characters.
pub struct SmcEventView<V> {
    pub time: i64,
    pub event_type: Seq<char>,
    pub price: V,
    pub swing_time: i64,
    pub swing_price: V,
}

impl<V> View for SmcEvent<V> {
    type V = SmcEventView<V>;

    open spec fn view(&self) -> SmcEventView<V> {
        SmcEventView {
            time: self.time,
            event_type: self.event_type@,
            price: self.price,
            swing_time: self.swing_time,
            swing_price: self.swing_price,
        }
    }
}

/// The views of a list of events, in its order.
pub open spec fn event_views<V>(events: Seq<SmcEvent<V>>) -> Seq<SmcEventView<V>> {
    Seq::new(events.len(), |i: int| events[i]@)
}

/// What the scan of the swings knows after a candle: the events so far,
/// the trend (`1` up, `-1` down, `0` undecided), and the last swing high
/// and swing low, each by its candle and its price.
pub struct Structure<V> {
    pub events: Seq<SmcEventView<V>>,
    pub trend: i8,
    pub last_high: Option<(usize, V)>,
    pub last_low: Option<(usize, V)>,
}

/// The event that the swing at candle `i` makes by breaking the swing at
/// candle `broken`.
pub open spec fn break_event<V>(
    candles: Seq<Candle<V>>,
    event_type: Seq<char>,
    i: int,
    price: V,
    broken: (usize, V),
) -> SmcEventView<V> {
    SmcEventView {
        time: candles[i].time,
        event_type,
        price,
        swing_time: candles[broken.0 as int].time,
        swing_price: broken.1,
    }
}

/// The structure after a swing high at candle `i`. A swing high above
/// the last one breaks structure upwards: it is a change of character,
/// and turns the trend up, where the trend was not up; else it is a break
/// of structure.
pub open spec fn after_swing_high<V: Scalar>(
    s: Structure<V>,
    candles: Seq<Candle<V>>,
    i: int,
) -> Structure<V> {
    let price = candles[i].high;
    let here = Some((i as usize, price));
    match s.last_high {
        Some(last) => if last.1.below(price) {
            if s.trend <= 0 {
                Structure {
                    events: s.events.push(break_event(candles, "choch_bull"@, i, price, last)),
                    trend: 1,
                    last_high: here,
                    last_low: s.last_low,
                }
            } else {
                Structure {
                    events: s.events.push(break_event(candles, "bos_bull"@, i, price, last)),
                    trend: s.trend,
                    last_high: here,
                    last_low: s.last_low,
                }
            }
        } else {
            Structure { events: s.events, trend: s.trend, last_high: here, last_low: s.last_low }
        },
        None => Structure {
            events: s.events,
            trend: s.trend,
            last_high: here,
            last_low: s.last_low,
        },
    }
}

/// The structure after a swing low at candle `i`: the mirror image of a
/// swing high.
pub open spec fn after_swing_low<V: Scalar>(
    s: Structure<V>,
    candles: Seq<Candle<V>>,
    i: int,
) -> Structure<V> {
    let price = candles[i].low;
    let here = Some((i as usize, price));
    match s.last_low {
        Some(last) => if price.below(last.1) {
            if s.trend >= 0 {
                Structure {
                    events: s.events.push(break_event(candles, "choch_bear"@, i, price, last)),
                    trend: -1i8,
                    last_high: s.last_high,
                    last_low: here,
                }
            } else {
                Structure {
                    events: s.events.push(break_event(candles, "bos_bear"@, i, price, last)),
                    trend: s.trend,
                    last_high: s.last_high,
                    last_low: here,
                }
            }
        } else {
            Structure { events: s.events, trend: s.trend, last_high: s.last_high, last_low: here }
        },
        None => Structure {
            events: s.events,
            trend: s.trend,
            last_high: s.last_high,
            last_low: here,
        },
    }
}

/// The structure after the swings among the candles before `n`, taken in
/// the order of the candles; a candle that is both a swing high and a
/// swing low counts as a high first.
pub open spec fn structure_after<V: Scalar>(candles: Seq<Candle<V>>, reach: usize, n: int) -> Structure<
    V,
>
    decreases n,
{
    if n <= reach {
        Structure { events: Seq::empty(), trend: 0, last_high: None, last_low: None }
    } else {
        let before = structure_after(candles, reach, n - 1);
        let high = if is_swing_high(candles, n - 1, reach as int) {
            after_swing_high(before, candles, n - 1)
        } else {
            before
        };
        if is_swing_low(candles, n - 1, reach as int) {
            after_swing_low(high, candles, n - 1)
        } else {
            high
        }
    }
}

/// Whether every event, and the swing that it breaks, stands on one of
/// the candles.
pub open spec fn on_candles<V>(events: Seq<SmcEventView<V>>, candles: Seq<Candle<V>>) -> bool {
    forall|k: int|
        0 <= k < events.len() ==> times_of(candles).contains((#[trigger] events[k]).time)
            && times_of(candles).contains(events[k].swing_time)
}

/// Every break of structure stands on a candle, and so does the swing
/// that it breaks.
pub proof fn lemma_events_stand_on_candles<V: Scalar>(
    candles: Seq<Candle<V>>,
    reach: usize,
    n: int,
)
    requires
        0 <= n <= candles.len(),
        candles.len() <= usize::MAX,
    ensures
        on_candles(structure_after(candles, reach, n).events, candles),
        structure_after(candles, reach, n).last_high matches Some(last) ==> last.0 < n,
        structure_after(candles, reach, n).last_low matches Some(last) ==> last.0 < n,
    decreases n,
{
    if n > reach {
        lemma_events_stand_on_candles(candles, reach, n - 1);
        let before = structure_after(candles, reach, n - 1);
        let high = if is_swing_high(candles, n - 1, reach as int) {
            after_swing_high(before, candles, n - 1)
        } else {
            before
        };
        assert(times_of(candles)[n - 1] == candles[n - 1].time);
        assert(on_candles(high.events, candles)) by {
            assert forall|k: int| 0 <= k < high.events.len() implies times_of(candles).contains(
                (#[trigger] high.events[k]).time,
            ) && times_of(candles).contains(high.events[k].swing_time) by {
                if k < before.events.len() {
                    assert(high.events[k] == before.events[k]);
                } else {
                    let last = before.last_high.unwrap();
                    assert(times_of(candles)[last.0 as int] == candles[last.0 as int].time);
                }
            }
        }
        let after = structure_after(candles, reach, n);
        assert forall|k: int| 0 <= k < after.events.len() implies times_of(candles).contains(
            (#[trigger] after.events[k]).time,
        ) && times_of(candles).contains(after.events[k].swing_time) by {
            if k < high.events.len() {
                assert(after.events[k] == high.events[k]);
            } else {
                let last = high.last_low.unwrap();
                assert(times_of(candles)[last.0 as int] == candles[last.0 as int].time);
            }
        }
    }
}

/// The breaks of structure of a series of candles: none where the
/// candles are too few for one swing.
pub open spec fn smc_spec<V: Scalar>(candles: Seq<Candle<V>>, swing_length: usize) -> Seq<
    SmcEventView<V>,
> {
    if has_swings(candles.len(), swing_length) {
        structure_after(candles, swing_length, candles.len() - swing_length).events
    } else {
        Seq::empty()
    }
}

fn event_of<V: Scalar>(
    candles: &[Candle<V>],
    event_type: &str,
    i: usize,
    price: V,
    broken: (usize, V),
) -> (r: SmcEvent<V>)
    requires
        i < candles@.len(),
        broken.0 < candles@.len(),
    ensures
        r@ == break_event(candles@, event_type@, i as int, price, broken),
{
    SmcEvent {
        time: candles[i].time,
        event_type: event_type.to_owned(),
        price,
        swing_time: candles[broken.0].time,
        swing_price: broken.1,
    }
}

/// The breaks of structure and changes of character among the swings of a
/// series of candles, in the order of the candles that make them.
pub fn calculate<V: Scalar>(candles: &[Candle<V>], swing_length: usize) -> (r: SmcResult<V>)
    ensures
        event_views(r.data@) == smc_spec(candles@, swing_length),
        on_candles(event_views(r.data@), candles@),
{
    let mut events: Vec<SmcEvent<V>> = Vec::new();
    let n = candles.len();
    proof {
        if has_swings(n as nat, swing_length) {
            lemma_events_stand_on_candles(candles@, swing_length, n - swing_length);
        }
    }
    if !enough_for_swings(n, swing_length) {
        assert(event_views(events@) =~= smc_spec(candles@, swing_length));
        return SmcResult { data: events };
    }
    let end = n - swing_length;
    let mut trend: i8 = 0;
    let mut last_high: Option<(usize, V)> = None;
    let mut last_low: Option<(usize, V)> = None;
    let mut i: usize = swing_length;
    assert(event_views(events@) =~= Seq::<SmcEventView<V>>::empty());
    while i < end
        invariant
            swing_length <= i <= end,
            end == n - swing_length,
            n == candles@.len(),
            has_swings(n as nat, swing_length),
            -1 <= trend <= 1,
            last_high matches Some(last) ==> last.0 < n,
            last_low matches Some(last) ==> last.0 < n,
            (Structure { events: event_views(events@), trend, last_high, last_low })
                == structure_after(candles@, swing_length, i as int),
        decreases end - i,
    {
        let ghost before = Structure { events: event_views(events@), trend, last_high, last_low };
        if swing_high(candles, i, swing_length) {
            let price = candles[i].high;
            if let Some(last) = last_high {
                if last.1.below(price) {
                    let ghost seen = event_views(events@);
                    if trend <= 0 {
                        let event = event_of(candles, "choch_bull", i, price, last);
                        events.push(event);
                        trend = 1;
                    } else {
                        let event = event_of(candles, "bos_bull", i, price, last);
                        events.push(event);
                    }
                    assert(event_views(events@) =~= seen.push(events@.last()@));
                }
            }
            last_high = Some((i, price));
        }
        let ghost high = Structure { events: event_views(events@), trend, last_high, last_low };
        assert(high == (if is_swing_high(candles@, i as int, swing_length as int) {
            after_swing_high(before, candles@, i as int)
        } else {
            before
        }));
        if swing_low(candles, i, swing_length) {
            let price = candles[i].low;
            if let Some(last) = last_low {
                if price.below(last.1) {
                    let ghost seen = event_views(events@);
                    if trend >= 0 {
                        let event = event_of(candles, "choch_bear", i, price, last);
                        events.push(event);
                        trend = -1;
                    } else {
                        let event = event_of(candles, "bos_bear", i, price, last);
                        events.push(event);
                    }
                    assert(event_views(events@) =~= seen.push(events@.last()@));
                }
            }
            last_low = Some((i, price));
        }
        i += 1;
    }
    SmcResult { data: events }
}

} // verus!
