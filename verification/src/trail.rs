//! The trail recorder: samples a position on a fixed wall-clock cadence and
//! keeps the chronological sequence of samples for later rendering.
//!
//! Times are fixed-point integers in thousandths of a second, like the
//! simulator's tick lengths.

use vstd::prelude::*;

use crate::vec3::Vec3;

verus! {

/// Accumulates time across ticks and appends at most one sample per tick:
/// when the accumulated time reaches the period, the tick's sample is
/// recorded and the accumulator resets to zero, silently skipping any
/// intermediate samples a long tick may have spanned.
pub struct TrailRecorder {
    pub period: u64,
    pub accumulated_time: u64,
    pub points: Vec<Vec3>,
}

impl TrailRecorder {
    /// Well-formed: a positive period, with the accumulator strictly inside
    /// it. Holds after construction and after every tick.
    pub open spec fn wf(self) -> bool {
        0 < self.period && self.accumulated_time < self.period
    }

    /// True when adding `dt` to the accumulator reaches the sampling cadence.
    pub open spec fn would_sample(self, dt: u64) -> bool {
        self.accumulated_time + dt >= self.period
    }

    /// A recorder that samples every `period` thousandths of a second,
    /// starting with an empty trail.
    pub fn new(period: u64) -> (r: TrailRecorder)
        requires
            0 < period,
        ensures
            r.period == period,
            r.accumulated_time == 0,
            r.points@ == Seq::<Vec3>::empty(),
            r.wf(),
    {
        TrailRecorder { period, accumulated_time: 0, points: Vec::new() }
    }

    /// Validating construction, as optional hardening over `new`: rejects the
    /// one invalid configuration, a zero period.
    pub fn try_new(period: u64) -> (r: Option<TrailRecorder>)
        ensures
            r is Some <==> 0 < period,
            r is Some ==> r->Some_0.period == period,
            r is Some ==> r->Some_0.accumulated_time == 0,
            r is Some ==> r->Some_0.points@ == Seq::<Vec3>::empty(),
            r is Some ==> r->Some_0.wf(),
    {
        if period == 0 {
            None
        } else {
            Some(TrailRecorder::new(period))
        }
    }

    /// Adds `dt` to the accumulated time; when the cadence has elapsed,
    /// appends `sample` to the trail and resets the accumulator to zero —
    /// at most one sample per call, however large `dt` is.
    pub fn tick(&mut self, dt: u64, sample: Vec3)
        requires
            old(self).wf(),
        ensures
            final(self).period == old(self).period,
            final(self).wf(),
            old(self).would_sample(dt) ==> final(self).points@ == old(self).points@.push(sample)
                && final(self).accumulated_time == 0,
            !old(self).would_sample(dt) ==> final(self).points@ == old(self).points@
                && final(self).accumulated_time == old(self).accumulated_time + dt,
    {
        let remaining: u64 = self.period - self.accumulated_time;
        if dt >= remaining {
            self.points.push(sample);
            self.accumulated_time = 0;
        } else {
            self.accumulated_time = self.accumulated_time + dt;
        }
    }

    /// Empties the trail immediately; the accumulated time is untouched, so
    /// the sampling cadence carries on as if no clear had happened.
    pub fn clear(&mut self)
        ensures
            final(self).period == old(self).period,
            final(self).accumulated_time == old(self).accumulated_time,
            final(self).points@ == Seq::<Vec3>::empty(),
            old(self).wf() ==> final(self).wf(),
    {
        self.points.clear();
    }

    /// Read-only view of the recorded trail, in chronological sample order.
    pub fn points(&self) -> (r: &Vec<Vec3>)
        ensures
            r@ == self.points@,
    {
        &self.points
    }

    /// Number of recorded samples.
    pub fn len(&self) -> (r: usize)
        ensures
            r == self.points@.len(),
    {
        self.points.len()
    }
}

/// Law: a clear leaves the accumulator exactly where it was, so a tick after
/// the clear reaches the sampling boundary if and only if the same tick
/// would have reached it with no clear in between.
pub proof fn lemma_clear_keeps_cadence(before: TrailRecorder, after: TrailRecorder, dt: u64)
    requires
        after.period == before.period,
        after.accumulated_time == before.accumulated_time,
    ensures
        after.would_sample(dt) == before.would_sample(dt),
{
}

} // verus!
