use crate::models::candle::{ascending, Candle};
use crate::series::{copy_of, times_of};
use crate::plan::{interval_seconds, interval_seconds_spec, IntervalPlan};
use crate::scalar::Scalar;
use vstd::prelude::*;

verus! {

/// The start of the bucket of `bucket_seconds` that `time` falls in: the
/// greatest multiple of `bucket_seconds` that is not above `time`.
pub open spec fn bucket_start(time: int, bucket_seconds: int) -> int {
    (time / bucket_seconds) * bucket_seconds
}

/// The bucket's candle once `c` has been folded into it: the open stays,
/// the high and the low widen where `c` goes beyond them, the close is
/// that of `c`, and the volumes add up.
pub open spec fn folded<V: Scalar>(bucket: Candle<V>, c: Candle<V>) -> Candle<V> {
    Candle {
        time: bucket.time,
        open: bucket.open,
        high: if bucket.high.below(c.high) {
            c.high
        } else {
            bucket.high
        },
        low: if c.low.below(bucket.low) {
            c.low
        } else {
            bucket.low
        },
        close: c.close,
        volume: bucket.volume.plus(c.volume),
    }
}

/// The candle that opens a bucket at `start` with `c` as its first source.
pub open spec fn opened<V>(c: Candle<V>, start: i64) -> Candle<V> {
    Candle { time: start, open: c.open, high: c.high, low: c.low, close: c.close, volume: c.volume }
}

/// The first `n` candles aggregated into buckets of `bucket_seconds`: a
/// candle is folded into the last bucket where it falls in it, and opens
/// a bucket of its own where it does not.
pub open spec fn resampled<V: Scalar>(candles: Seq<Candle<V>>, bucket_seconds: int, n: int) -> Seq<
    Candle<V>,
>
    decreases n,
{
    if n <= 0 {
        Seq::empty()
    } else {
        let before = resampled(candles, bucket_seconds, n - 1);
        let c = candles[n - 1];
        let start = bucket_start(c.time as int, bucket_seconds);
        if before.len() > 0 && before.last().time == start {
            before.update(before.len() - 1, folded(before.last(), c))
        } else {
            before.push(opened(c, start as i64))
        }
    }
}

/// Whether the bucket start of every candle fits `i64`: it can fail only
/// for times within one bucket of the least `i64`.
pub open spec fn buckets_fit<V>(candles: Seq<Candle<V>>, bucket_seconds: int) -> bool {
    forall|i: int|
        0 <= i < candles.len() ==> bucket_start(
            (#[trigger] candles[i]).time as int,
            bucket_seconds,
        ) >= i64::MIN
}

/// What `resample_candles` returns: the candles themselves where the plan
/// asks for no resampling or names an interval without a length, else the
/// candles in buckets of the requested interval.
pub open spec fn resample_spec<V: Scalar>(
    candles: Seq<Candle<V>>,
    needs_resample: bool,
    requested: Seq<char>,
) -> Seq<Candle<V>> {
    if !needs_resample || candles.len() == 0 {
        candles
    } else {
        match interval_seconds_spec(requested) {
            None => candles,
            Some(bucket_seconds) => resampled(candles, bucket_seconds as int, candles.len() as int),
        }
    }
}

proof fn lemma_bucket_start(time: int, bucket_seconds: int)
    requires
        bucket_seconds > 0,
    ensures
        bucket_start(time, bucket_seconds) == time - time % bucket_seconds,
        0 <= time % bucket_seconds < bucket_seconds,
{
    vstd::arithmetic::div_mod::lemma_fundamental_div_mod(time, bucket_seconds);
    vstd::arithmetic::div_mod::lemma_mod_bound(time, bucket_seconds);
    assert(bucket_seconds * (time / bucket_seconds) == (time / bucket_seconds) * bucket_seconds)
        by (nonlinear_arith);
}

/// The volumes of `candles[a..e]` added up from the left.
pub open spec fn run_volume<V: Scalar>(candles: Seq<Candle<V>>, a: int, e: int) -> V
    decreases e - a,
{
    if e <= a + 1 {
        candles[a].volume
    } else {
        run_volume(candles, a, e - 1).plus(candles[e - 1].volume)
    }
}

/// The highest high of `candles[a..e]`: the first, replaced by each later
/// one that it is below.
pub open spec fn run_high<V: Scalar>(candles: Seq<Candle<V>>, a: int, e: int) -> V
    decreases e - a,
{
    if e <= a + 1 {
        candles[a].high
    } else {
        let so_far = run_high(candles, a, e - 1);
        if so_far.below(candles[e - 1].high) {
            candles[e - 1].high
        } else {
            so_far
        }
    }
}

/// The lowest low of `candles[a..e]`: the first, replaced by each later
/// one that is below it.
pub open spec fn run_low<V: Scalar>(candles: Seq<Candle<V>>, a: int, e: int) -> V
    decreases e - a,
{
    if e <= a + 1 {
        candles[a].low
    } else {
        let so_far = run_low(candles, a, e - 1);
        if candles[e - 1].low.below(so_far) {
            candles[e - 1].low
        } else {
            so_far
        }
    }
}

/// The one candle that stands for `candles[a..e]` in a bucket that starts
/// at `start`.
pub open spec fn summary<V: Scalar>(candles: Seq<Candle<V>>, start: i64, a: int, e: int) -> Candle<
    V,
> {
    Candle {
        time: start,
        open: candles[a].open,
        high: run_high(candles, a, e),
        low: run_low(candles, a, e),
        close: candles[e - 1].close,
        volume: run_volume(candles, a, e),
    }
}

/// Where the last bucket of the first `n` candles begins.
pub open spec fn run_start<V: Scalar>(candles: Seq<Candle<V>>, bucket_seconds: int, n: int) -> int
    decreases n,
{
    if n <= 1 {
        0
    } else {
        let before = resampled(candles, bucket_seconds, n - 1);
        if before.len() > 0 && before.last().time == bucket_start(
            candles[n - 1].time as int,
            bucket_seconds,
        ) {
            run_start(candles, bucket_seconds, n - 1)
        } else {
            n - 1
        }
    }
}

/// The source candles `[a, e)` that make the `k`-th bucket of the first
/// `n` candles.
pub open spec fn run_of<V: Scalar>(candles: Seq<Candle<V>>, bucket_seconds: int, n: int, k: int) -> (
    int,
    int,
)
    decreases n,
{
    if n <= 0 {
        (0, 0)
    } else if k >= resampled(candles, bucket_seconds, n).len() - 1 {
        (run_start(candles, bucket_seconds, n), n)
    } else if 0 <= run_start(candles, bucket_seconds, n) < n {
        run_of(candles, bucket_seconds, run_start(candles, bucket_seconds, n), k)
    } else {
        (0, 0)
    }
}

proof fn lemma_bucket_start_grows(t1: int, t2: int, bucket_seconds: int)
    requires
        bucket_seconds > 0,
        t1 <= t2,
    ensures
        bucket_start(t1, bucket_seconds) <= bucket_start(t2, bucket_seconds),
{
    vstd::arithmetic::div_mod::lemma_div_is_ordered(t1, t2, bucket_seconds);
    assert((t1 / bucket_seconds) * bucket_seconds <= (t2 / bucket_seconds) * bucket_seconds)
        by (nonlinear_arith)
        requires
            t1 / bucket_seconds <= t2 / bucket_seconds,
            bucket_seconds > 0,
    ;
}

proof fn lemma_last_bucket<V: Scalar>(candles: Seq<Candle<V>>, bucket_seconds: int, n: int)
    requires
        bucket_seconds > 0,
        1 <= n <= candles.len(),
        buckets_fit(candles, bucket_seconds),
    ensures
        ({
            let out = resampled(candles, bucket_seconds, n);
            let a = run_start(candles, bucket_seconds, n);
            &&& 0 <= a < n
            &&& out.len() >= 1
            &&& out.last() == summary(candles, out.last().time, a, n)
            &&& forall|i: int|
                a <= i < n ==> bucket_start(
                    (#[trigger] candles[i]).time as int,
                    bucket_seconds,
                ) == out.last().time
            &&& out.drop_last() == resampled(candles, bucket_seconds, a)
            &&& a > 0 ==> resampled(candles, bucket_seconds, a).len() > 0 && resampled(
                candles,
                bucket_seconds,
                a,
            ).last().time != out.last().time
        }),
    decreases n,
{
    let out = resampled(candles, bucket_seconds, n);
    let c = candles[n - 1];
    let start = bucket_start(c.time as int, bucket_seconds);
    lemma_bucket_start(c.time as int, bucket_seconds);
    assert(start >= i64::MIN);
    assert(start as i64 == start);
    if n == 1 {
        assert(resampled(candles, bucket_seconds, 0) =~= Seq::<Candle<V>>::empty());
        assert(out =~= seq![opened(c, start as i64)]);
        assert(out.drop_last() =~= resampled(candles, bucket_seconds, 0));
    } else {
        lemma_last_bucket(candles, bucket_seconds, n - 1);
        let before = resampled(candles, bucket_seconds, n - 1);
        if before.last().time == start {
            assert(out.drop_last() =~= before.drop_last());
        } else {
            assert(out.drop_last() =~= before);
        }
    }
}

proof fn lemma_before_last_bucket<V: Scalar>(
    candles: Seq<Candle<V>>,
    bucket_seconds: int,
    n: int,
    i: int,
)
    requires
        bucket_seconds > 0,
        1 <= n <= candles.len(),
        buckets_fit(candles, bucket_seconds),
        ascending(times_of(candles)),
        0 <= i < run_start(candles, bucket_seconds, n),
    ensures
        bucket_start(candles[i].time as int, bucket_seconds) < resampled(
            candles,
            bucket_seconds,
            n,
        ).last().time,
{
    let a = run_start(candles, bucket_seconds, n);
    lemma_last_bucket(candles, bucket_seconds, n);
    lemma_last_bucket(candles, bucket_seconds, a);
    let last_before = candles[a - 1];
    assert(bucket_start(last_before.time as int, bucket_seconds) == resampled(
        candles,
        bucket_seconds,
        a,
    ).last().time);
    assert(bucket_start(candles[a].time as int, bucket_seconds) == resampled(
        candles,
        bucket_seconds,
        n,
    ).last().time);
    assert(times_of(candles)[a - 1] < times_of(candles)[a]);
    if i < a - 1 {
        assert(times_of(candles)[i] < times_of(candles)[a - 1]);
    }
    lemma_bucket_start_grows(candles[i].time as int, last_before.time as int, bucket_seconds);
    lemma_bucket_start_grows(last_before.time as int, candles[a].time as int, bucket_seconds);
}

/// Nothing is lost in resampling. Of ascending candles, the `k`-th bucket
/// stands for one unbroken run of source candles, which are exactly those
/// that fall into the bucket: its open is the first one's, its close the
/// last one's, its volume their sum, and its high and low the widest of
/// theirs.
pub proof fn lemma_resample_conserves<V: Scalar>(
    candles: Seq<Candle<V>>,
    bucket_seconds: int,
    n: int,
    k: int,
)
    requires
        bucket_seconds > 0,
        0 <= n <= candles.len(),
        buckets_fit(candles, bucket_seconds),
        ascending(times_of(candles)),
        0 <= k < resampled(candles, bucket_seconds, n).len(),
    ensures
        ({
            let out = resampled(candles, bucket_seconds, n);
            let (a, e) = run_of(candles, bucket_seconds, n, k);
            &&& 0 <= a < e <= n
            &&& out[k].open == candles[a].open
            &&& out[k].close == candles[e - 1].close
            &&& out[k].volume == run_volume(candles, a, e)
            &&& out[k].high == run_high(candles, a, e)
            &&& out[k].low == run_low(candles, a, e)
            &&& forall|i: int|
                0 <= i < n ==> (a <= i < e <==> bucket_start(
                    (#[trigger] candles[i]).time as int,
                    bucket_seconds,
                ) == out[k].time)
        }),
    decreases n,
{
    let out = resampled(candles, bucket_seconds, n);
    lemma_last_bucket(candles, bucket_seconds, n);
    let a = run_start(candles, bucket_seconds, n);
    if k == out.len() - 1 {
        assert forall|i: int| 0 <= i < n implies (a <= i < n <==> bucket_start(
            (#[trigger] candles[i]).time as int,
            bucket_seconds,
        ) == out[k].time) by {
            if i < a {
                lemma_before_last_bucket(candles, bucket_seconds, n, i);
            }
        }
    } else {
        assert(out[k] == out.drop_last()[k]);
        lemma_resample_conserves(candles, bucket_seconds, a, k);
        let (a2, e2) = run_of(candles, bucket_seconds, a, k);
        lemma_before_last_bucket(candles, bucket_seconds, n, a2);
        assert(bucket_start(candles[a2].time as int, bucket_seconds) == out[k].time);
    }
}

/// Aggregates source candles into candles of the plan's requested
/// interval.
pub fn resample_candles<V: Scalar>(candles: &[Candle<V>], plan: &IntervalPlan) -> (r: Vec<
    Candle<V>,
>)
    requires
        plan.needs_resample ==> match interval_seconds_spec(plan.requested@) {
            Some(bucket_seconds) => buckets_fit(candles@, bucket_seconds as int),
            None => true,
        },
    ensures
        r@ == resample_spec(candles@, plan.needs_resample, plan.requested@),
{
    if !plan.needs_resample || candles.len() == 0 {
        return copy_of(candles);
    }
    let bucket_seconds = match interval_seconds(plan.requested.as_str()) {
        Some(b) => b,
        None => {
            return copy_of(candles);
        },
    };
    assert(bucket_seconds > 0);
    let mut output: Vec<Candle<V>> = Vec::new();
    let mut i: usize = 0;
    while i < candles.len()
        invariant
            i <= candles@.len(),
            bucket_seconds > 0,
            buckets_fit(candles@, bucket_seconds as int),
            output@ == resampled(candles@, bucket_seconds as int, i as int),
        decreases candles@.len() - i,
    {
        let candle = candles[i];
        proof {
            lemma_bucket_start(candle.time as int, bucket_seconds as int);
            assert(bucket_start(candles@[i as int].time as int, bucket_seconds as int) >= i64::MIN);
        }
        let shift = match candle.time.checked_rem_euclid(bucket_seconds) {
            Some(m) => m,
            None => 0,
        };
        let start: i64 = candle.time - shift;
        let n = output.len();
        if n > 0 && output[n - 1].time == start {
            let last = output[n - 1];
            let high = if last.high.below(candle.high) {
                candle.high
            } else {
                last.high
            };
            let low = if candle.low.below(last.low) {
                candle.low
            } else {
                last.low
            };
            output.set(
                n - 1,
                Candle {
                    time: last.time,
                    open: last.open,
                    high,
                    low,
                    close: candle.close,
                    volume: last.volume.plus(candle.volume),
                },
            );
        } else {
            output.push(
                Candle {
                    time: start,
                    open: candle.open,
                    high: candle.high,
                    low: candle.low,
                    close: candle.close,
                    volume: candle.volume,
                },
            );
        }
        i += 1;
    }
    output
}

} // verus!
