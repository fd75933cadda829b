//! Durations as milliseconds, and sums over them.
//!
//! All lengths and positions in this crate are whole milliseconds held in a
//! `u64`. Sums saturate at `u64::MAX` instead of overflowing, mirroring how
//! the aggregates are only ever displayed.
use vstd::prelude::*;

verus! {

/// Clamps a mathematical value into what a `u64` can hold.
pub open spec fn sat64(x: int) -> int {
    if x > u64::MAX as int {
        u64::MAX as int
    } else if x < 0 {
        0
    } else {
        x
    }
}

/// Mathematical sum of a sequence of durations.
pub open spec fn sum_durs(s: Seq<u64>) -> int
    decreases s.len(),
{
    if s.len() == 0 {
        0
    } else {
        sum_durs(s.drop_last()) + s.last()
    }
}

/// A sum of durations never goes down when a duration is appended.
pub proof fn lemma_sum_durs_nonneg(s: Seq<u64>)
    ensures
        sum_durs(s) >= 0,
    decreases s.len(),
{
    if s.len() > 0 {
        lemma_sum_durs_nonneg(s.drop_last());
    }
}

/// Removing an element takes exactly its value out of the sum.
pub proof fn lemma_sum_durs_remove(s: Seq<u64>, i: int)
    requires
        0 <= i < s.len(),
    ensures
        sum_durs(s.remove(i)) == sum_durs(s) - s[i],
    decreases s.len(),
{
    if i == s.len() - 1 {
        assert(s.remove(i) =~= s.drop_last());
    } else {
        assert(s.remove(i).drop_last() =~= s.drop_last().remove(i));
        assert(s.remove(i).last() == s.last());
        lemma_sum_durs_remove(s.drop_last(), i);
    }
}

/// Inserting an element adds exactly its value to the sum.
pub proof fn lemma_sum_durs_insert(s: Seq<u64>, i: int, d: u64)
    requires
        0 <= i <= s.len(),
    ensures
        sum_durs(s.insert(i, d)) == sum_durs(s) + d,
    decreases s.len(),
{
    if i == s.len() {
        assert(s.insert(i, d).drop_last() =~= s);
        assert(s.insert(i, d).last() == d);
    } else {
        assert(s.insert(i, d).drop_last() =~= s.drop_last().insert(i, d));
        assert(s.insert(i, d).last() == s.last());
        lemma_sum_durs_insert(s.drop_last(), i, d);
    }
}

} // verus!
