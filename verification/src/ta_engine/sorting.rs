use crate::models::signal::{signal_views, SignalPoint, SignalView};
use crate::scalar::Scalar;
use crate::ta_engine::signal::times_within;
use vstd::prelude::*;

verus! {

/// The first index at or after `from` whose signal is not before `t`.
pub open spec fn first_not_before<V>(s: Seq<SignalView<V>>, t: i64, from: int) -> int
    decreases s.len() - from,
{
    if 0 <= from < s.len() && s[from].time < t {
        first_not_before(s, t, from + 1)
    } else {
        from
    }
}

/// The signals with `x` put before the first that is not before it.
pub open spec fn inserted<V>(sorted: Seq<SignalView<V>>, x: SignalView<V>) -> Seq<SignalView<V>> {
    sorted.insert(first_not_before(sorted, x.time, 0), x)
}

/// The signals in the order of their times; signals at one time keep the
/// order that they came in.
pub open spec fn sorted_by_time<V>(s: Seq<SignalView<V>>) -> Seq<SignalView<V>>
    decreases s.len(),
{
    if s.len() == 0 {
        s
    } else {
        inserted(sorted_by_time(s.drop_first()), s[0])
    }
}

/// Whether no signal is before the one in front of it.
pub open spec fn non_decreasing<V>(s: Seq<SignalView<V>>) -> bool {
    forall|i: int, j: int| 0 <= i <= j < s.len() ==> s[i].time <= s[j].time
}

/// Before the index found every signal is before `t`, and the signal at
/// the index is not.
pub proof fn lemma_first_not_before<V>(s: Seq<SignalView<V>>, t: i64, from: int)
    requires
        0 <= from <= s.len(),
    ensures
        from <= first_not_before(s, t, from) <= s.len(),
        forall|k: int| from <= k < first_not_before(s, t, from) ==> s[k].time < t,
        first_not_before(s, t, from) < s.len() ==> s[first_not_before(s, t, from)].time >= t,
    decreases s.len() - from,
{
    if from < s.len() && s[from].time < t {
        lemma_first_not_before(s, t, from + 1);
    }
}

/// Putting a signal into sorted signals leaves them sorted and adds that
/// signal and no other.
pub proof fn lemma_inserted<V>(sorted: Seq<SignalView<V>>, x: SignalView<V>)
    requires
        non_decreasing(sorted),
    ensures
        non_decreasing(inserted(sorted, x)),
        inserted(sorted, x).len() == sorted.len() + 1,
        inserted(sorted, x).to_multiset() == sorted.to_multiset().insert(x),
{
    let p = first_not_before(sorted, x.time, 0);
    lemma_first_not_before(sorted, x.time, 0);
    vstd::seq_lib::to_multiset_insert(sorted, p, x);
    let out = inserted(sorted, x);
    assert forall|i: int, j: int| 0 <= i <= j < out.len() implies out[i].time <= out[j].time by {
        if i < p && j > p {
            assert(out[i] == sorted[i]);
            assert(out[j] == sorted[j - 1]);
        } else if i < p && j < p {
            assert(out[i] == sorted[i]);
            assert(out[j] == sorted[j]);
        } else if i > p {
            assert(out[i] == sorted[i - 1]);
            assert(out[j] == sorted[j - 1]);
        } else if i == p && j > p {
            assert(out[j] == sorted[j - 1]);
            assert(sorted[p].time <= sorted[j - 1].time);
        }
    }
}

/// Sorting puts the signals in order and neither drops nor adds one.
pub proof fn lemma_sorted_by_time<V>(s: Seq<SignalView<V>>)
    ensures
        non_decreasing(sorted_by_time(s)),
        sorted_by_time(s).len() == s.len(),
        sorted_by_time(s).to_multiset() == s.to_multiset(),
    decreases s.len(),
{
    if s.len() > 0 {
        lemma_sorted_by_time(s.drop_first());
        lemma_inserted(sorted_by_time(s.drop_first()), s[0]);
        vstd::seq_lib::to_multiset_insert(s.drop_first(), 0, s[0]);
        assert(s.drop_first().insert(0, s[0]) =~= s);
    }
}

/// Sorting moves no signal to another time: signals that stand on some
/// times still do when they are sorted.
pub proof fn lemma_sorted_times_within<V>(s: Seq<SignalView<V>>, times: Seq<i64>)
    requires
        times_within(s, times),
    ensures
        times_within(sorted_by_time(s), times),
    decreases s.len(),
{
    if s.len() > 0 {
        let rest = sorted_by_time(s.drop_first());
        assert forall|k: int| 0 <= k < s.drop_first().len() implies times.contains(
            (#[trigger] s.drop_first()[k]).time,
        ) by {
            assert(s.drop_first()[k] == s[k + 1]);
        }
        lemma_sorted_times_within(s.drop_first(), times);
        let p = first_not_before(rest, s[0].time, 0);
        lemma_first_not_before(rest, s[0].time, 0);
        let out = sorted_by_time(s);
        assert forall|k: int| 0 <= k < out.len() implies times.contains((#[trigger] out[k]).time) by {
            if k < p {
                assert(out[k] == rest[k]);
            } else if k > p {
                assert(out[k] == rest[k - 1]);
            } else {
                assert(out[k] == s[0]);
            }
        }
    }
}

/// The signals without their first ones, sorted, are the sorted rest
/// with the signal before them put in.
proof fn lemma_sorted_step<V>(s: Seq<SignalView<V>>, k: int)
    requires
        0 <= k < s.len(),
    ensures
        sorted_by_time(s.skip(k)) == inserted(sorted_by_time(s.skip(k + 1)), s[k]),
{
    assert(s.skip(k).drop_first() =~= s.skip(k + 1));
    assert(s.skip(k)[0] == s[k]);
}

/// Sorts the signals by time; signals at one time keep their order.
pub fn sort_signals<V: Scalar>(signals: Vec<SignalPoint<V>>) -> (r: Vec<SignalPoint<V>>)
    ensures
        signal_views(r@) == sorted_by_time(signal_views(signals@)),
        non_decreasing(signal_views(r@)),
        r@.len() == signals@.len(),
        signal_views(r@).to_multiset() == signal_views(signals@).to_multiset(),
{
    let ghost views = signal_views(signals@);
    let mut rest = signals;
    let mut out: Vec<SignalPoint<V>> = Vec::with_capacity(rest.len());
    proof {
        assert(views.skip(views.len() as int) =~= Seq::<SignalView<V>>::empty());
        assert(signal_views(out@) =~= Seq::<SignalView<V>>::empty());
    }
    while rest.len() > 0
        invariant
            rest@.len() <= views.len(),
            forall|j: int| 0 <= j < rest@.len() ==> rest@[j]@ == views[j],
            signal_views(out@) == sorted_by_time(views.skip(rest@.len() as int)),
        decreases rest@.len(),
    {
        let ghost k = rest@.len() - 1;
        let x = rest.pop().unwrap();
        assert(x@ == views[k]);
        let time = x.time;
        let n = out.len();
        let ghost sorted = signal_views(out@);
        let mut p: usize = 0;
        while p < n && out[p].time < time
            invariant
                p <= n,
                n == out@.len(),
                sorted == signal_views(out@),
                first_not_before(sorted, time, 0) == first_not_before(sorted, time, p as int),
            decreases n - p,
        {
            assert(sorted[p as int] == out@[p as int]@);
            p += 1;
        }
        proof {
            if p < n {
                assert(sorted[p as int] == out@[p as int]@);
            }
            lemma_sorted_step(views, k);
        }
        out.insert(p, x);
        assert(signal_views(out@) =~= sorted.insert(p as int, views[k]));
    }
    proof {
        assert(views.skip(0) =~= views);
        lemma_sorted_by_time(views);
    }
    out
}

} // verus!
