//! Frame timing statistics: a running sum of inter-frame durations and a
//! sample count, emitting one summary and resetting to zero each time the
//! count passes a fixed threshold. Diagnostic only; it never affects render
//! correctness.

use vstd::prelude::*;

verus! {

/// How many samples accumulate before a summary is emitted and the counters
/// reset.
pub const SAMPLE_THRESHOLD: u32 = 100;

/// One emitted summary: the accumulated frame time and how many frames it
/// covers. The caller derives the average and the frames-per-second figure.
#[derive(Clone, Copy, Debug, PartialEq, Eq, Structural)]
pub struct FrameSummary {
    pub total_nanos: u128,
    pub frames: u32,
}

/// The rolling counters: sum of recorded durations and number of samples.
#[derive(Clone, Copy, Debug, PartialEq, Eq, Structural)]
pub struct FrameStats {
    pub sum_nanos: u128,
    pub count: u32,
}

/// The state and emitted summary after recording one sample of `dt`
/// nanoseconds in state `s`.
pub open spec fn spec_record(s: FrameStats, dt: u64) -> (FrameStats, Option<FrameSummary>) {
    let sum = s.sum_nanos + dt;
    let count = s.count + 1;
    if count > SAMPLE_THRESHOLD {
        (
            FrameStats { sum_nanos: 0, count: 0 },
            Some(FrameSummary { total_nanos: sum as u128, frames: count as u32 }),
        )
    } else {
        (FrameStats { sum_nanos: sum as u128, count: count as u32 }, None)
    }
}

/// The state after recording a whole sequence of samples, starting from `s`.
pub open spec fn spec_record_all(s: FrameStats, samples: Seq<u64>) -> FrameStats
    decreases samples.len(),
{
    if samples.len() == 0 {
        s
    } else {
        spec_record(spec_record_all(s, samples.drop_last()), samples.last()).0
    }
}

impl FrameStats {
    /// Between calls the count has never passed the threshold, and the sum is
    /// bounded by what that many samples can add up to.
    pub open spec fn wf(self) -> bool {
        self.count <= SAMPLE_THRESHOLD && self.sum_nanos <= self.count * (u64::MAX as int)
    }

    /// Fresh counters: no samples, no accumulated time.
    pub fn new() -> (s: FrameStats)
        ensures
            s == (FrameStats { sum_nanos: 0, count: 0 }),
            s.wf(),
    {
        FrameStats { sum_nanos: 0, count: 0 }
    }

    /// Record one inter-frame duration. Once the sample count passes the
    /// threshold, the accumulated sum and count reset to zero and the totals
    /// they reached are emitted as a summary.
    pub fn record(&mut self, dt: u64) -> (summary: Option<FrameSummary>)
        requires
            old(self).wf(),
        ensures
            (*final(self), summary) == spec_record(*old(self), dt),
            final(self).wf(),
    {
        self.sum_nanos = self.sum_nanos + (dt as u128);
        self.count = self.count + 1;
        if self.count > SAMPLE_THRESHOLD {
            let summary = FrameSummary { total_nanos: self.sum_nanos, frames: self.count };
            self.sum_nanos = 0;
            self.count = 0;
            Some(summary)
        } else {
            None
        }
    }
}

/// While the threshold has not been passed, the counters are exact: the count
/// is the number of samples recorded since the last reset and the sum is
/// their total.
pub proof fn lemma_counters_exact(samples: Seq<u64>)
    requires
        samples.len() <= SAMPLE_THRESHOLD,
    ensures
        spec_record_all(FrameStats { sum_nanos: 0, count: 0 }, samples).count == samples.len(),
        spec_record_all(FrameStats { sum_nanos: 0, count: 0 }, samples).sum_nanos == sum_of(
            samples,
        ),
    decreases samples.len(),
{
    if samples.len() > 0 {
        lemma_counters_exact(samples.drop_last());
        lemma_sum_bound(samples.drop_last());
    }
}

/// The total of a sequence of durations.
pub open spec fn sum_of(samples: Seq<u64>) -> int
    decreases samples.len(),
{
    if samples.len() == 0 {
        0
    } else {
        sum_of(samples.drop_last()) + samples.last()
    }
}

/// A sequence's total is bounded by its length times the largest sample.
proof fn lemma_sum_bound(samples: Seq<u64>)
    ensures
        0 <= sum_of(samples) <= samples.len() * (u64::MAX as int),
    decreases samples.len(),
{
    if samples.len() > 0 {
        lemma_sum_bound(samples.drop_last());
    }
}

/// After exactly one sample more than the threshold, the accumulated sum and
/// count have reset to zero, before any further sample is recorded.
pub proof fn lemma_timing_reset(samples: Seq<u64>)
    requires
        samples.len() == SAMPLE_THRESHOLD + 1,
    ensures
        spec_record_all(FrameStats { sum_nanos: 0, count: 0 }, samples) == (FrameStats {
            sum_nanos: 0,
            count: 0,
        }),
{
    lemma_counters_exact(samples.drop_last());
    lemma_sum_bound(samples.drop_last());
}

} // verus!
