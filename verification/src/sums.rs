//! Totals of per-CPU counters, computed without overflow.

use vstd::prelude::*;

verus! {

/// The sum of a sequence of counters.
pub open spec fn sum_of(s: Seq<usize>) -> int
    decreases s.len(),
{
    if s.len() == 0 {
        0
    } else {
        sum_of(s.drop_last()) + s.last()
    }
}

/// A prefix sums to no more than the whole sequence.
proof fn lemma_prefix_sum_bounded(s: Seq<usize>, i: int)
    requires
        0 <= i <= s.len(),
    ensures
        sum_of(s.take(i)) <= sum_of(s),
    decreases s.len() - i,
{
    if i < s.len() {
        lemma_prefix_sum_bounded(s, i + 1);
        assert(s.take(i + 1).drop_last() =~= s.take(i));
    } else {
        assert(s.take(i) =~= s);
    }
}

/// The sum of the counters; `None` when it does not fit in a `usize`.
pub fn checked_sum(v: &Vec<usize>) -> (r: Option<usize>)
    ensures
        r is Some <==> sum_of(v@) <= usize::MAX,
        r matches Some(n) ==> n == sum_of(v@),
{
    let mut acc: usize = 0;
    let mut i: usize = 0;
    while i < v.len()
        invariant
            i <= v@.len(),
            acc == sum_of(v@.take(i as int)),
        decreases v@.len() - i,
    {
        assert(v@.take(i + 1).drop_last() =~= v@.take(i as int));
        proof {
            lemma_prefix_sum_bounded(v@, i + 1);
        }
        match acc.checked_add(v[i]) {
            Some(a) => {
                acc = a;
            },
            None => {
                return None;
            },
        }
        i = i + 1;
    }
    assert(v@.take(v@.len() as int) =~= v@);
    Some(acc)
}

} // verus!
