//! Per-consumer pacing: a repeating interval timer and the playback handle.
//!
//! A [`RemoteControl`] is the consumer-owned side of one video: a unique
//! identity used to look the video up in the registry, plus a repeating
//! timer that decides on which host ticks the consumer should ask for the
//! next frame. Pacing is entirely the consumer's business: it never affects
//! which frames are produced, nor their order.

use vstd::prelude::*;

verus! {

/// Microseconds in one second; intervals are stored in microseconds.
pub const MICROS_PER_SECOND: u64 = 1_000_000;

/// A repeating interval timer counting wall-clock time in microseconds.
///
/// The timer accumulates elapsed time; once the accumulated time reaches the
/// interval it fires and keeps only the remainder, so a long host tick fires
/// at most once but loses no time.
pub struct FrameTimer {
    /// Length of one period, in microseconds. Always at least 1.
    pub interval_micros: u64,
    /// Time accumulated since the last firing. Always below the interval.
    pub elapsed_micros: u64,
}

impl FrameTimer {
    /// The timer's internal invariant.
    pub open spec fn wf(self) -> bool {
        &&& self.interval_micros >= 1
        &&& self.elapsed_micros < self.interval_micros
    }

    /// The interval, in microseconds, of a frames-per-second value:
    /// one second divided by `fps`, and at least one microsecond.
    pub open spec fn interval_of_fps(fps: u32) -> u64
        recommends
            fps >= 1,
    {
        if MICROS_PER_SECOND as u64 / (fps as u64) >= 1 {
            MICROS_PER_SECOND as u64 / (fps as u64)
        } else {
            1
        }
    }

    /// A fresh timer whose interval is `1 / fps` seconds.
    pub fn from_fps(fps: u32) -> (t: FrameTimer)
        requires
            fps >= 1,
        ensures
            t.wf(),
            t.interval_micros == Self::interval_of_fps(fps),
            t.elapsed_micros == 0,
    {
        let micros: u64 = MICROS_PER_SECOND / (fps as u64);
        let interval_micros: u64 = if micros >= 1 {
            micros
        } else {
            1
        };
        FrameTimer { interval_micros, elapsed_micros: 0 }
    }

    /// Advance the timer by an elapsed wall-clock delta. Returns whether the
    /// interval elapsed; if so, the excess past the last whole interval is
    /// kept, so the timer repeats.
    pub fn tick(&mut self, delta_micros: u64) -> (fired: bool)
        requires
            old(self).wf(),
        ensures
            final(self).wf(),
            final(self).interval_micros == old(self).interval_micros,
            fired <==> old(self).elapsed_micros + delta_micros >= old(self).interval_micros,
            fired ==> final(self).elapsed_micros == (old(self).elapsed_micros + delta_micros) % (
            old(self).interval_micros as int),
            !fired ==> final(self).elapsed_micros == old(self).elapsed_micros + delta_micros,
    {
        let sum: u128 = self.elapsed_micros as u128 + delta_micros as u128;
        if sum >= self.interval_micros as u128 {
            self.elapsed_micros = (sum % (self.interval_micros as u128)) as u64;
            true
        } else {
            self.elapsed_micros = sum as u64;
            false
        }
    }
}

/// Relies on `uuid::Uuid::new_v4`: a freshly generated random 128-bit value.
/// Nothing is promised of it; in particular uniqueness is only probabilistic.
#[verifier::external_body]
fn fresh_id() -> u128 {
    uuid::Uuid::new_v4().as_u128()
}

/// The consumer-owned playback handle for one video: a lookup identity plus
/// the consumer's pacing timer.
///
/// The identity only matches the handle to its video's channel in the
/// registry; it implies no ownership, and dropping the handle stops nothing
/// by itself.
pub struct RemoteControl {
    /// Decides how often the consumer asks for the next frame, and lets the
    /// consumer pause by simply not ticking or not querying it.
    pub fps_tracker: FrameTimer,
    /// The identity the registry keys this handle's channel by. Generated
    /// once at creation; treated as a pure lookup key thereafter.
    pub id: u128,
}

impl RemoteControl {
    /// A fresh handle: a newly drawn identity and a timer for `fps`.
    pub fn new(fps: u32) -> (rc: RemoteControl)
        requires
            fps >= 1,
        ensures
            rc.fps_tracker.wf(),
            rc.fps_tracker.interval_micros == FrameTimer::interval_of_fps(fps),
            rc.fps_tracker.elapsed_micros == 0,
    {
        RemoteControl { fps_tracker: FrameTimer::from_fps(fps), id: fresh_id() }
    }

    /// Replace the pacing timer by a fresh one for `fps`.
    ///
    /// Law: this changes only how often the consumer will ask for frames.
    /// The identity is untouched, so the handle still addresses the same
    /// channel and the content and order of the frames it receives do not
    /// change.
    pub fn set_fps(&mut self, fps: u32)
        requires
            fps >= 1,
        ensures
            final(self).id == old(self).id,
            final(self).fps_tracker.wf(),
            final(self).fps_tracker.interval_micros == FrameTimer::interval_of_fps(fps),
            final(self).fps_tracker.elapsed_micros == 0,
    {
        self.fps_tracker = FrameTimer::from_fps(fps);
    }
}

} // verus!
