//! The estimate of presentation latency that keeps audio in step with video.
//!
//! A frame is shown some time after the decoder delivered it. The estimator
//! keeps a running average of that delay; the backend delays its audio by the
//! same amount. The average moves a little with every frame, so the backend is
//! told of it only once in every `REPORT_EVERY` frames.

use crate::position::counter_range;
use crate::time::duration_nanos;
use std::time::Duration;
use vstd::prelude::*;

verus! {

/// How many samples pass between two reports to the backend.
pub const REPORT_EVERY: u64 = 128;

/// The largest count of samples; an estimator that has reached it stands still.
pub const MAX_SAMPLES: u64 = 0xffff_ffff_ffff_ffff;

/// The largest delay that the backend's signed offset can hold.
pub const MAX_CORRECTION: u64 = 0x7fff_ffff_ffff_ffff;

/// A running average of presentation latency.
#[derive(Debug, Clone, Copy, PartialEq, Eq, Structural)]
pub struct AvSync {
    /// The average delay so far, in nanoseconds.
    pub average: u64,
    /// The number of delays that went into the average.
    pub samples: u64,
}

/// A delay as the estimator takes it: in nanoseconds, cut to 64 bits.
pub open spec fn delay_nanos(offset: Duration) -> int {
    duration_nanos(offset) as int % counter_range()
}

/// The average of `samples + 1` delays, from the average of the first
/// `samples` and the delay that came last. Both shares are rounded down.
pub open spec fn blend(average: int, samples: int, delay: int) -> int {
    average * samples / (samples + 1) + delay / (samples + 1)
}

/// The offset that corrects a delay: its negative, with the delay capped at
/// what the backend's signed offset can hold.
pub open spec fn correction(average: int) -> int {
    if average > MAX_CORRECTION {
        -(MAX_CORRECTION as int)
    } else {
        -average
    }
}

impl AvSync {
    /// The estimator after one more delay.
    pub open spec fn after(self, delay: int) -> AvSync {
        if self.samples == MAX_SAMPLES {
            self
        } else {
            AvSync {
                average: blend(self.average as int, self.samples as int, delay) as u64,
                samples: (self.samples + 1) as u64,
            }
        }
    }

    /// What the backend is told after one more delay: the correction for the
    /// new average on every `REPORT_EVERY`th sample, nothing otherwise.
    pub open spec fn report(self, delay: int) -> Option<i64> {
        if self.samples != MAX_SAMPLES && (self.samples + 1) % (REPORT_EVERY as int) == 0 {
            Some(correction(self.after(delay).average as int) as i64)
        } else {
            None
        }
    }

    /// An estimator that has seen no frame yet.
    pub fn new() -> (sync: AvSync)
        ensures
            sync.average == 0,
            sync.samples == 0,
    {
        AvSync { average: 0, samples: 0 }
    }

    /// Takes the delay of one more frame into the average, and returns the
    /// offset to hand to the backend when a report is due.
    pub fn update(&mut self, offset: Duration) -> (report: Option<i64>)
        ensures
            *final(self) == old(self).after(delay_nanos(offset)),
            report == old(self).report(delay_nanos(offset)),
    {
        if self.samples == MAX_SAMPLES {
            return None;
        }
        let nanos: u128 = offset.as_nanos();
        let delay: u64 = (nanos % 0x1_0000_0000_0000_0000u128) as u64;
        let count: u64 = self.samples + 1;
        proof {
            lemma_blend_bounded(self.average as int, self.samples as int, delay as int);
        }
        let kept: u128 = (self.average as u128) * (self.samples as u128) / (count as u128);
        let average: u64 = (kept + (delay / count) as u128) as u64;
        self.average = average;
        self.samples = count;
        if count % REPORT_EVERY == 0 {
            if average > MAX_CORRECTION {
                Some(-0x7fff_ffff_ffff_ffffi64)
            } else {
                Some(-(average as i64))
            }
        } else {
            None
        }
    }
}

/// An average of delays that each fit 64 bits fits 64 bits too: it never
/// exceeds the larger of the old average and the new delay.
pub proof fn lemma_blend_bounded(average: int, samples: int, delay: int)
    requires
        0 <= average <= u64::MAX,
        0 <= delay <= u64::MAX,
        0 <= samples < u64::MAX,
    ensures
        0 <= average * samples <= u64::MAX * u64::MAX,
        0 <= average * samples / (samples + 1),
        0 <= delay / (samples + 1),
        0 <= blend(average, samples, delay) <= u64::MAX,
        blend(average, samples, delay) <= if average >= delay {
            average
        } else {
            delay
        },
{
    let count = samples + 1;
    let top = if average >= delay {
        average
    } else {
        delay
    };
    let kept = average * samples;
    assert(0 <= kept <= u64::MAX * u64::MAX) by (nonlinear_arith)
        requires
            kept == average * samples,
            0 <= average <= u64::MAX,
            0 <= samples <= u64::MAX,
    ;
    assert(kept + delay <= top * count) by (nonlinear_arith)
        requires
            kept == average * samples,
            count == samples + 1,
            0 <= average <= top,
            0 <= delay <= top,
            0 <= samples,
    ;
    assert(0 <= kept / count && 0 <= delay / count && kept / count + delay / count <= top)
        by (nonlinear_arith)
        requires
            0 <= kept,
            0 <= delay,
            0 < count,
            kept + delay <= top * count,
    ;
}

} // verus!
