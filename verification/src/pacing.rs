use vstd::prelude::*;

verus! {

/// Interval at which the ticker wakes the presenter, in milliseconds: 200
/// wakes per second, comfortably above any target frame rate.
pub const TICK_INTERVAL_MS: u64 = 5;

/// Length of one counting period of the frame counter, in milliseconds.
pub const REPORT_INTERVAL_MS: u64 = 1000;

/// The presenter's rolling one-second frame counter: how many frames were
/// drawn in the period that began at `period_start_ms`.
#[derive(Clone, Copy, PartialEq, Eq, Structural, Debug)]
pub struct Pacer {
    pub period_start_ms: u64,
    pub frames: u64,
}

impl Pacer {
    /// A counter whose first period starts at `now_ms` with no frame drawn.
    pub fn new(now_ms: u64) -> (p: Pacer)
        ensures
            p.period_start_ms == now_ms,
            p.frames == 0,
    {
        Pacer { period_start_ms: now_ms, frames: 0 }
    }

    /// Records one drawn frame at time `now_ms`.  When at least one report
    /// interval has passed since the period started, returns the count of
    /// the period that just ended and starts a new period holding only this
    /// frame; otherwise counts the frame silently.
    pub fn record_frame(&mut self, now_ms: u64) -> (report: Option<u64>)
        requires
            old(self).period_start_ms <= now_ms,
            old(self).frames < u64::MAX,
        ensures
            if now_ms - old(self).period_start_ms >= REPORT_INTERVAL_MS {
                &&& report == Some(old(self).frames)
                &&& final(self).period_start_ms == now_ms
                &&& final(self).frames == 1
            } else {
                &&& report is None
                &&& final(self).period_start_ms == old(self).period_start_ms
                &&& final(self).frames == old(self).frames + 1
            },
    {
        let elapsed = now_ms - self.period_start_ms;
        if elapsed >= REPORT_INTERVAL_MS {
            let count = self.frames;
            self.period_start_ms = now_ms;
            self.frames = 1;
            Some(count)
        } else {
            self.frames = self.frames + 1;
            None
        }
    }
}

} // verus!
