//! The bucket rule shared by the latency histograms.
//!
//! A histogram is described by a table of upper bounds, its steps. A value is
//! counted in the first bucket whose step it does not exceed.

use vstd::prelude::*;

verus! {

/// Each step is larger than the one before it.
pub open spec fn strictly_ascending(steps: Seq<u64>) -> bool {
    forall|i: int, j: int| 0 <= i < j < steps.len() ==> steps[i] < steps[j]
}

/// `index` is the bucket of `value`: the step there is not exceeded, and every
/// earlier step is.
pub open spec fn falls_in(steps: Seq<u64>, value: u64, index: int) -> bool {
    &&& 0 <= index < steps.len()
    &&& value <= steps[index]
    &&& forall|j: int| 0 <= j < index ==> steps[j] < value
}

/// No step is large enough for `value`.
pub open spec fn exceeds_all(steps: Seq<u64>, value: u64) -> bool {
    forall|j: int| 0 <= j < steps.len() ==> steps[j] < value
}

/// Scans the steps in order and returns the index of the first one that
/// `value` does not exceed, or `None` when `value` exceeds them all.
pub fn find_step(steps: &[u64], value: u64) -> (found: Option<usize>)
    ensures
        found is None <==> exceeds_all(steps@, value),
        found is Some ==> falls_in(steps@, value, found->Some_0 as int),
{
    let mut index: usize = 0;
    while index < steps.len()
        invariant
            index <= steps@.len(),
            forall|j: int| 0 <= j < index ==> steps@[j] < value,
        decreases steps@.len() - index,
    {
        if value <= steps[index] {
            return Some(index);
        }
        index += 1;
    }
    None
}

/// A value has at most one bucket.
pub proof fn falls_in_is_unique(steps: Seq<u64>, value: u64, i: int, j: int)
    requires
        falls_in(steps, value, i),
        falls_in(steps, value, j),
    ensures
        i == j,
{
    if i < j {
        assert(steps[i] < value);
    } else if j < i {
        assert(steps[j] < value);
    }
}

/// A value exceeds all steps exactly when it has no bucket.
pub proof fn falls_in_or_exceeds_all(steps: Seq<u64>, value: u64)
    ensures
        exceeds_all(steps, value) <==> !exists|i: int| falls_in(steps, value, i),
{
    if exceeds_all(steps, value) {
        assert forall|i: int| !falls_in(steps, value, i) by {
            if 0 <= i < steps.len() {
                assert(steps[i] < value);
            }
        }
    } else {
        let k = first_reached(steps, value, 0);
        assert(falls_in(steps, value, k));
    }
}

/// The first index from `from` on whose step `value` does not exceed.
proof fn first_reached(steps: Seq<u64>, value: u64, from: int) -> (k: int)
    requires
        0 <= from <= steps.len(),
        forall|j: int| 0 <= j < from ==> steps[j] < value,
        !exceeds_all(steps, value),
    ensures
        falls_in(steps, value, k),
    decreases steps.len() - from,
{
    if from == steps.len() {
        assert(exceeds_all(steps, value));
        from
    } else if value <= steps[from] {
        from
    } else {
        first_reached(steps, value, from + 1)
    }
}

/// Where the last step is the largest value there is, every value has exactly
/// one bucket.
pub proof fn last_step_catches_all(steps: Seq<u64>, value: u64) -> (index: int)
    requires
        steps.len() > 0,
        steps.last() == u64::MAX,
    ensures
        falls_in(steps, value, index),
        forall|other: int| falls_in(steps, value, other) ==> other == index,
{
    assert(!exceeds_all(steps, value)) by {
        assert(steps[steps.len() - 1] >= value);
    }
    let index = first_reached(steps, value, 0);
    assert forall|other: int| falls_in(steps, value, other) implies other == index by {
        falls_in_is_unique(steps, value, other, index);
    }
    index
}

/// The number of events that a histogram with these bucket counts holds.
pub open spec fn events(counts: Seq<nat>) -> nat
    decreases counts.len(),
{
    if counts.len() == 0 {
        0
    } else {
        events(counts.drop_last()) + counts.last()
    }
}

/// The bucket counts after one more event in bucket `index`.
pub open spec fn counted(counts: Seq<nat>, index: int) -> Seq<nat> {
    counts.update(index, counts[index] + 1)
}

/// The sums of two histograms, bucket by bucket.
pub open spec fn counts_plus(a: Seq<nat>, b: Seq<nat>) -> Seq<nat> {
    Seq::new(a.len(), |i: int| a[i] + b[i])
}

/// One more event in a bucket is one more event in the histogram.
pub proof fn counted_adds_one_event(counts: Seq<nat>, index: int)
    requires
        0 <= index < counts.len(),
    ensures
        events(counted(counts, index)) == events(counts) + 1,
    decreases counts.len(),
{
    let after = counted(counts, index);
    if index == counts.len() - 1 {
        assert(after.drop_last() =~= counts.drop_last());
    } else {
        counted_adds_one_event(counts.drop_last(), index);
        assert(after.drop_last() =~= counted(counts.drop_last(), index));
    }
}

/// Adding two histograms adds their numbers of events.
pub proof fn counts_plus_adds_events(a: Seq<nat>, b: Seq<nat>)
    requires
        a.len() == b.len(),
    ensures
        events(counts_plus(a, b)) == events(a) + events(b),
    decreases a.len(),
{
    if a.len() > 0 {
        counts_plus_adds_events(a.drop_last(), b.drop_last());
        assert(counts_plus(a, b).drop_last() =~= counts_plus(a.drop_last(), b.drop_last()));
    }
}

/// Buckets that are all empty hold no event.
pub proof fn empty_buckets_hold_no_event(counts: Seq<nat>)
    requires
        forall|i: int| 0 <= i < counts.len() ==> counts[i] == 0,
    ensures
        events(counts) == 0,
    decreases counts.len(),
{
    if counts.len() > 0 {
        empty_buckets_hold_no_event(counts.drop_last());
    }
}

} // verus!
