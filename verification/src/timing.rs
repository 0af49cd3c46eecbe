//! Frame pacing: the integer arithmetic behind the render-loop throttle.
//!
//! The driver reads the monotonic clock and sleeps; this module decides how
//! long, and turns the achieved elapsed time into the recorded frame time and
//! the instantaneous frames-per-second estimate. All durations are whole
//! nanoseconds.

use vstd::prelude::*;

verus! {

/// The target frame interval: one sixtieth of a second, in nanoseconds.
pub const FRAME_TIME_TARGET_NS: u64 = 16_666_667;

/// Nanoseconds in one second, for the frames-per-second estimate.
pub const NANOS_PER_SECOND: u64 = 1_000_000_000;

/// How often, in frames, the observability sink is notified.
pub const SHOW_EVERY_FRAMES: u128 = 60;

/// Per-frame timing state. `frame_time_ns` is the elapsed time the last
/// completed pacing step measured; `fps` is derived from it and never set
/// directly; `frame_count` counts completed frames and only ever grows.
#[derive(Clone, Copy, PartialEq, Eq, Structural, Debug)]
pub struct TimeState {
    pub frame_time_ns: u64,
    pub frame_count: u128,
    pub fps: i32,
}

/// How long the driver must sleep when `elapsed_ns` have passed since the
/// previous frame: the remainder of the target interval, or nothing once the
/// interval is already spent.
pub open spec fn spec_sleep_ns(elapsed_ns: u64) -> u64 {
    if elapsed_ns < FRAME_TIME_TARGET_NS {
        (FRAME_TIME_TARGET_NS - elapsed_ns) as u64
    } else {
        0
    }
}

/// The biased instantaneous frames-per-second estimate for a frame that took
/// `frame_time_ns`: the floor of one second over the frame time, plus one.
pub open spec fn spec_fps(frame_time_ns: u64) -> int
    recommends
        frame_time_ns >= 1,
{
    NANOS_PER_SECOND as int / frame_time_ns as int + 1
}

impl TimeState {
    /// The state at startup: one nominal frame interval on the books, no
    /// frames counted, and the estimate that matches the target rate.
    pub fn init() -> (s: TimeState)
        ensures
            s.frame_time_ns == FRAME_TIME_TARGET_NS,
            s.frame_count == 0,
            s.fps == 60,
    {
        TimeState { frame_time_ns: FRAME_TIME_TARGET_NS, frame_count: 0, fps: 60 }
    }

    /// Records the elapsed time the pacing step finally measured, and derives
    /// the frames-per-second estimate from it. The frame counter is not
    /// touched. A monotonic clock read across a completed frame is never
    /// zero, which the estimate's division needs.
    pub fn record_frame_time(&mut self, final_elapsed_ns: u64)
        requires
            final_elapsed_ns >= 1,
        ensures
            *final(self) == (TimeState {
                frame_time_ns: final_elapsed_ns,
                fps: spec_fps(final_elapsed_ns) as i32,
                ..*old(self)
            }),
            final(self).fps == spec_fps(final_elapsed_ns),
    {
        self.frame_time_ns = final_elapsed_ns;
        let whole: u64 = NANOS_PER_SECOND / final_elapsed_ns;
        self.fps = (whole as i32) + 1;
    }

    /// Whether the observability sink is due a report this frame: every
    /// sixtieth frame, counting from the first.
    pub fn show_data_due(&self) -> (due: bool)
        ensures
            due == (self.frame_count % SHOW_EVERY_FRAMES == 0),
    {
        self.frame_count % SHOW_EVERY_FRAMES == 0
    }

    /// Counts the frame just drawn. The counter's limit is treated as never
    /// reached.
    pub fn advance_frame(&mut self)
        requires
            old(self).frame_count < u128::MAX,
        ensures
            *final(self) == (TimeState {
                frame_count: (old(self).frame_count + 1) as u128,
                ..*old(self)
            }),
    {
        self.frame_count = self.frame_count + 1;
    }
}

/// How long to sleep before this frame proceeds, given the time elapsed
/// since the previous one. Sleeping this long always carries the frame past
/// the target interval.
pub fn sleep_ns(elapsed_ns: u64) -> (r: u64)
    ensures
        r == spec_sleep_ns(elapsed_ns),
        elapsed_ns + r >= FRAME_TIME_TARGET_NS,
{
    if elapsed_ns < FRAME_TIME_TARGET_NS {
        FRAME_TIME_TARGET_NS - elapsed_ns
    } else {
        0
    }
}

/// Monotonic pacing: however little time the frame's own work took, the
/// elapsed time measured after the prescribed sleep — which a monotonic clock
/// makes at least the pre-sleep elapsed time plus the time slept — is at
/// least the target frame interval. The recorded frame time therefore never
/// falls below it.
pub proof fn lemma_monotonic_pacing(elapsed_ns: u64, final_elapsed_ns: u64)
    requires
        final_elapsed_ns >= elapsed_ns + spec_sleep_ns(elapsed_ns),
    ensures
        final_elapsed_ns >= FRAME_TIME_TARGET_NS,
{
}

} // verus!
