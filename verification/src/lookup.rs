use crate::series::{times_of, Timed};
use std::collections::HashMap;
use vstd::prelude::*;

verus! {

/// The index of the last of the first `n` times that equals `t`.
pub open spec fn last_index(times: Seq<i64>, t: i64, n: int) -> Option<usize>
    decreases n,
{
    if n <= 0 {
        None
    } else if times[n - 1] == t {
        Some((n - 1) as usize)
    } else {
        last_index(times, t, n - 1)
    }
}

/// Where a series has its point at time `t`: the index of the last point
/// at that time, if there is one.
pub open spec fn position(times: Seq<i64>, t: i64) -> Option<usize> {
    last_index(times, t, times.len() as int)
}

/// What `last_index` finds is a point at the time asked for, and it
/// finds one wherever there is one.
pub proof fn lemma_last_index(times: Seq<i64>, t: i64, n: int)
    requires
        0 <= n <= times.len(),
        times.len() <= usize::MAX,
    ensures
        match last_index(times, t, n) {
            Some(i) => i < n && times[i as int] == t && forall|j: int|
                i < j < n ==> times[j] != t,
            None => forall|j: int| 0 <= j < n ==> times[j] != t,
        },
    decreases n,
{
    if n > 0 && times[n - 1] != t {
        lemma_last_index(times, t, n - 1);
    }
}

/// An index of a series of points by their times.
pub struct TimeIndex {
    map: HashMap<i64, usize>,
    times: Ghost<Seq<i64>>,
}

impl View for TimeIndex {
    type V = Seq<i64>;

    closed spec fn view(&self) -> Seq<i64> {
        self.times@
    }
}

impl TimeIndex {
    #[verifier::type_invariant]
    spec fn wf(self) -> bool {
        &&& self.times@.len() <= usize::MAX
        &&& forall|t: i64|
            (#[trigger] self.map@.contains_key(t)) <==> position(self.times@, t) is Some
        &&& forall|t: i64|
            (#[trigger] self.map@.contains_key(t)) ==> position(self.times@, t) == Some(
                self.map@[t],
            )
    }

    /// The index of a series of points.
    pub fn build<P: Timed>(points: &[P]) -> (r: TimeIndex)
        ensures
            r@ == times_of(points@),
    {
        broadcast use vstd::std_specs::hash::group_hash_axioms;

        let n = points.len();
        let mut map: HashMap<i64, usize> = HashMap::new();
        let ghost times = times_of(points@);
        let mut i: usize = 0;
        while i < n
            invariant
                i <= n,
                n == points@.len(),
                times == times_of(points@),
                forall|t: i64|
                    (#[trigger] map@.contains_key(t)) <==> last_index(times, t, i as int) is Some,
                forall|t: i64|
                    (#[trigger] map@.contains_key(t)) ==> last_index(times, t, i as int) == Some(
                        map@[t],
                    ),
            decreases n - i,
        {
            let t = points[i].time_of();
            map.insert(t, i);
            i += 1;
        }
        TimeIndex { map, times: Ghost(times) }
    }

    /// The position of the point at time `t`.
    pub fn find(&self, t: i64) -> (r: Option<usize>)
        ensures
            r == position(self@, t),
            r matches Some(i) ==> i < self@.len() && self@[i as int] == t,
    {
        broadcast use vstd::std_specs::hash::group_hash_axioms;

        proof {
            use_type_invariant(self);
            lemma_last_index(self.times@, t, self.times@.len() as int);
        }
        match self.map.get(&t) {
            Some(i) => Some(*i),
            None => None,
        }
    }
}

} // verus!
