use crate::scalar::{whole, Scalar};
use crate::ta_engine::helpers::window_count;
use vstd::prelude::*;

verus! {

/// The sum of the weights `1, 2, ..., period`: half the product of the
/// period and its successor.
pub open spec fn weight_sum<V: Scalar>(period: usize) -> V {
    V::from_count(period).times(V::from_count(period).plus(whole::<V>(1))).over(whole::<V>(2))
}

/// The first `n` values from `start` on, the `j`-th of them weighted by
/// `j + 1`, added up from the left.
pub open spec fn weighted_sum<V: Scalar>(values: Seq<V>, start: int, n: int) -> V
    decreases n,
{
    if n <= 0 {
        whole::<V>(0)
    } else {
        weighted_sum(values, start, n - 1).plus(
            values[start + n - 1].times(V::from_count(n as usize)),
        )
    }
}

/// The weighted moving average: the `k`-th value is the weighted sum of
/// the `k`-th window over the sum of the weights.
pub open spec fn wma_seq<V: Scalar>(values: Seq<V>, period: usize) -> Seq<V> {
    Seq::new(
        window_count(values.len(), period),
        |k: int| weighted_sum(values, k, period as int).over(weight_sum::<V>(period)),
    )
}

/// The weighted moving average of a series of values, the weights growing
/// from one for the oldest value of a window to `period` for the newest.
pub fn calculate_from_values<V: Scalar>(values: &[V], period: usize) -> (r: Vec<V>)
    ensures
        r@ == wma_seq(values@, period),
{
    let mut result: Vec<V> = Vec::new();
    if values.len() < period || period == 0 {
        assert(result@ =~= wma_seq(values@, period));
        return result;
    }
    let count = values.len() - period + 1;
    let divisor: V = V::from_count(period).times(V::from_count(period).plus(whole::<V>(1))).over(
        whole::<V>(2),
    );
    let mut k: usize = 0;
    while k < count
        invariant
            k <= count,
            count == values@.len() - period + 1,
            values@.len() <= usize::MAX,
            period > 0,
            divisor == weight_sum::<V>(period),
            result@.len() == k,
            forall|j: int| 0 <= j < k ==> result@[j] == wma_seq(values@, period)[j],
        decreases count - k,
    {
        let mut weighted: V = whole(0);
        let mut j: usize = 0;
        while j < period
            invariant
                j <= period,
                k < count,
                count == values@.len() - period + 1,
                values@.len() <= usize::MAX,
                weighted == weighted_sum(values@, k as int, j as int),
            decreases period - j,
        {
            weighted = weighted.plus(values[k + j].times(V::from_count(j + 1)));
            j += 1;
        }
        result.push(weighted.over(divisor));
        k += 1;
    }
    assert(result@ =~= wma_seq(values@, period));
    result
}

} // verus!
