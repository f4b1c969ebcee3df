//! A running maximum over an open-ended run of observations.

use vstd::prelude::*;

verus! {

/// The peak after one more observation: the larger of the two.
pub open spec fn peak_step(peak: u64, value: u64) -> u64 {
    if value > peak {
        value
    } else {
        peak
    }
}

/// The peak after observing `values` in order, starting from `start`.
pub open spec fn peak_after(start: u64, values: Seq<u64>) -> u64
    decreases values.len(),
{
    if values.len() == 0 {
        start
    } else {
        peak_step(peak_after(start, values.drop_last()), values.last())
    }
}

/// The largest value seen so far. Nothing lowers it; a fresh start takes a
/// fresh tracker.
pub struct PeakTracker {
    peak: u64,
}

impl PeakTracker {
    /// The peak as contracts see it.
    pub closed spec fn spec_peak(&self) -> u64 {
        self.peak
    }

    /// A tracker whose peak is `initial`.
    pub fn new(initial: u64) -> (tracker: Self)
        ensures
            tracker.peak() == initial,
    {
        PeakTracker { peak: initial }
    }

    /// The largest value seen so far.
    #[verifier::when_used_as_spec(spec_peak)]
    pub fn peak(&self) -> (p: u64)
        ensures
            p == self.peak(),
    {
        self.peak
    }

    /// Takes note of `value`. The result tells whether the peak rose.
    pub fn observe(&mut self, value: u64) -> (changed: bool)
        ensures
            final(self).peak() == peak_step(old(self).peak(), value),
            final(self).peak() >= old(self).peak(),
            changed == (final(self).peak() > old(self).peak()),
            changed == (value > old(self).peak()),
    {
        if value > self.peak {
            self.peak = value;
            true
        } else {
            false
        }
    }
}

/// However many values are observed, the peak never falls: the peak after a
/// prefix of the observations is at most the peak after all of them, and the
/// starting peak is at most either.
pub proof fn lemma_peak_is_monotonic(start: u64, values: Seq<u64>, k: int)
    requires
        0 <= k <= values.len(),
    ensures
        start <= peak_after(start, values.take(k)) <= peak_after(start, values),
    decreases values.len() - k,
{
    lemma_peak_at_least_start(start, values.take(k));
    if k < values.len() {
        lemma_peak_is_monotonic(start, values, k + 1);
        assert(values.take(k + 1).drop_last() =~= values.take(k));
    } else {
        assert(values.take(k) =~= values);
    }
}

/// The peak after any observations is at least the starting peak.
pub proof fn lemma_peak_at_least_start(start: u64, values: Seq<u64>)
    ensures
        start <= peak_after(start, values),
    decreases values.len(),
{
    if values.len() > 0 {
        lemma_peak_at_least_start(start, values.drop_last());
    }
}

/// The peak after the observations is the starting peak or one of the
/// observed values, and no observed value exceeds it.
pub proof fn lemma_peak_is_largest(start: u64, values: Seq<u64>)
    ensures
        forall|i: int| 0 <= i < values.len() ==> values[i] <= peak_after(start, values),
        peak_after(start, values) == start || exists|i: int|
            0 <= i < values.len() && values[i] == peak_after(start, values),
    decreases values.len(),
{
    if values.len() > 0 {
        let front = values.drop_last();
        lemma_peak_is_largest(start, front);
        assert forall|i: int| 0 <= i < values.len() implies values[i] <= peak_after(
            start,
            values,
        ) by {
            if i < front.len() {
                assert(front[i] == values[i]);
            }
        }
        if peak_after(start, values) != start {
            if peak_after(start, values) == values.last() {
                assert(values[values.len() - 1] == peak_after(start, values));
            } else {
                let i = choose|i: int| 0 <= i < front.len() && front[i] == peak_after(start, front);
                assert(values[i] == peak_after(start, values));
            }
        }
    }
}

} // verus!
