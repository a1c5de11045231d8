//! The pacing controller: at most one accepted frame per target interval.

use vstd::prelude::*;

verus! {

/// Clock resolution used throughout the capture core.
pub const MICROS_PER_SECOND: u64 = 1_000_000;

/// The target inter-frame interval for `rate` frames per second, in
/// microseconds: `1 / rate` seconds, rounded up so that an interval that has
/// elapsed is never shorter than `1 / rate`.
pub open spec fn interval_for(rate: nat) -> nat
    recommends
        rate > 0,
{
    ((MICROS_PER_SECOND + rate - 1) as nat / rate) as nat
}

/// A frame may be accepted at `now` when none was accepted yet, or when at
/// least `interval` microseconds have passed since the last accepted one.
pub open spec fn is_due(interval: nat, last_capture: Option<u64>, now: u64) -> bool {
    match last_capture {
        None => true,
        Some(t) => now >= t + interval,
    }
}

/// Decides whether a polled frame is due, for one configured frame rate.
#[derive(Clone, Copy, Debug)]
pub struct Pacer {
    pub frame_rate: u32,
    pub interval_micros: u64,
}

impl Pacer {
    pub open spec fn wf(&self) -> bool {
        &&& self.frame_rate > 0
        &&& self.interval_micros as nat == interval_for(self.frame_rate as nat)
    }

    /// The pacer for `frame_rate` frames per second.
    pub fn new(frame_rate: u32) -> (r: Pacer)
        requires
            frame_rate > 0,
        ensures
            r.wf(),
            r.frame_rate == frame_rate,
    {
        let interval = (MICROS_PER_SECOND + frame_rate as u64 - 1) / frame_rate as u64;
        Pacer { frame_rate, interval_micros: interval }
    }

    /// Whether a frame polled at `now` is due, given the time of the last
    /// accepted frame.
    pub fn ready_for_next_frame(&self, last_capture: Option<u64>, now: u64) -> (r: bool)
        ensures
            r == is_due(self.interval_micros as nat, last_capture, now),
    {
        match last_capture {
            None => true,
            Some(t) => now >= t && now - t >= self.interval_micros,
        }
    }
}

/// The interval for `rate` is the shortest whole number of microseconds that
/// is at least `1 / rate` seconds.
pub proof fn lemma_interval_bounds(rate: nat)
    requires
        rate > 0,
    ensures
        interval_for(rate) * rate >= MICROS_PER_SECOND,
        (interval_for(rate) - 1) * rate < MICROS_PER_SECOND,
        interval_for(rate) >= 1,
{
    let m = MICROS_PER_SECOND as int;
    let q = (m + rate - 1) / (rate as int);
    let r = (m + rate - 1) % (rate as int);
    assert(m + rate - 1 == q * rate + r && 0 <= r < rate) by (nonlinear_arith)
        requires
            rate > 0,
            q == (m + rate - 1) / (rate as int),
            r == (m + rate - 1) % (rate as int),
    ;
    assert(q * rate >= m) by (nonlinear_arith)
        requires
            m + rate - 1 == q * rate + r,
            0 <= r < rate,
    ;
    assert(q >= 1) by (nonlinear_arith)
        requires
            m + rate - 1 == q * rate + r,
            0 <= r < rate,
            m >= 1,
    ;
    assert((q - 1) * rate < m) by (nonlinear_arith)
        requires
            m + rate - 1 == q * rate + r,
            0 <= r,
            rate > 0,
    ;
}

} // verus!
