//! Throttled frame pacing for animations: a frame is allowed once enough
//! time has passed since the last allowed one.
use vstd::prelude::*;

verus! {

/// Nanoseconds in a second.
pub const NANOS_PER_SECOND: u64 = 1_000_000_000;

/// A span of time, counted in whole nanoseconds.
#[derive(Debug, Clone, Copy, PartialEq, Eq, Structural, PartialOrd, Ord, Hash)]
pub struct Duration {
    nanos: u128,
}

impl Duration {
    /// The span in nanoseconds.
    pub closed spec fn spec_nanos(self) -> u128 {
        self.nanos
    }

    /// No time at all.
    pub fn zero() -> (d: Duration)
        ensures d.spec_nanos() == 0,
    {
        Duration { nanos: 0 }
    }

    /// A span of `nanos` nanoseconds.
    pub fn from_nanos(nanos: u64) -> (d: Duration)
        ensures d.spec_nanos() == nanos,
    {
        Duration { nanos: nanos as u128 }
    }

    /// A span of `millis` milliseconds.
    pub fn from_millis(millis: u64) -> (d: Duration)
        ensures d.spec_nanos() == millis * 1_000_000,
    {
        Duration { nanos: millis as u128 * 1_000_000 }
    }

    /// The span in nanoseconds.
    pub fn as_nanos(&self) -> (n: u128)
        ensures n == self.spec_nanos(),
    {
        self.nanos
    }
}

/// How long since the last frame at time `now`: 0 when `now` is before it.
pub open spec fn spec_elapsed(now: u128, last: u128) -> u128 {
    if now >= last { (now - last) as u128 } else { 0 }
}

/// Gates frame requests so that frames come at most once per interval.
#[derive(Debug, Clone)]
pub struct AnimationFrameRate {
    fps: u32,
    min_interval: Duration,
    last_frame_time: Option<Duration>,
    enabled: bool,
}

impl AnimationFrameRate {
    /// The target frames per second.
    pub closed spec fn spec_fps(self) -> u32 {
        self.fps
    }

    /// The least time between frames, in nanoseconds.
    pub closed spec fn interval(self) -> u128 {
        self.min_interval.spec_nanos()
    }

    /// The time of the last allowed frame, in nanoseconds.
    pub closed spec fn last(self) -> Option<u128> {
        match self.last_frame_time {
            Some(d) => Some(d.spec_nanos()),
            None => None,
        }
    }

    /// Whether frames are allowed at all.
    pub closed spec fn spec_enabled(self) -> bool {
        self.enabled
    }

    /// Whether a frame at time `now` comes late enough: always for the
    /// first frame, else when `now` is at least one interval after the last.
    pub open spec fn spec_ready(self, now: u128) -> bool {
        match self.last() {
            None => true,
            Some(last) => now >= last && now - last >= self.interval(),
        }
    }

    /// The time left until a frame is allowed at time `now`, 0 when ready.
    pub open spec fn spec_wait(self, now: u128) -> u128 {
        match self.last() {
            None => 0,
            Some(last) => {
                let e = spec_elapsed(now, last);
                if e >= self.interval() { 0 } else { (self.interval() - e) as u128 }
            },
        }
    }

    /// Targeting `fps` frames per second (0 counts as 1): the interval is a
    /// second divided by it, rounded down. It starts enabled, with no frame
    /// yet.
    pub fn new(fps: u32) -> (a: AnimationFrameRate)
        ensures
            a.spec_fps() == (if fps == 0 { 1 } else { fps }),
            a.interval() == NANOS_PER_SECOND / (a.spec_fps() as u64),
            a.last() is None,
            a.spec_enabled(),
    {
        let fps = if fps == 0 { 1 } else { fps };
        let interval_ns = NANOS_PER_SECOND / (fps as u64);
        AnimationFrameRate {
            fps,
            min_interval: Duration::from_nanos(interval_ns),
            last_frame_time: None,
            enabled: true,
        }
    }

    /// With a given interval; the frame rate is a second divided by its
    /// nanoseconds taken as a 64-bit number (60 for an empty interval). An
    /// interval that is a nonzero multiple of 2^64 nanoseconds would divide
    /// by zero and is not accepted.
    pub fn with_interval(interval: Duration) -> (a: AnimationFrameRate)
        requires
            interval.spec_nanos() > 0 ==> interval.spec_nanos() as u64 != 0,
        ensures
            a.spec_fps() == (if interval.spec_nanos() > 0 {
                (NANOS_PER_SECOND / (interval.spec_nanos() as u64)) as u32
            } else {
                60
            }),
            a.interval() == interval.spec_nanos(),
            a.last() is None,
            a.spec_enabled(),
    {
        let n = interval.as_nanos();
        let fps: u32 = if n > 0 {
            let low: u64 = (#[verifier::truncate] (n as u64));
            (NANOS_PER_SECOND / low) as u32
        } else {
            60
        };
        AnimationFrameRate { fps, min_interval: interval, last_frame_time: None, enabled: true }
    }

    /// The target frames per second.
    pub fn fps(&self) -> (f: u32)
        ensures f == self.spec_fps(),
    {
        self.fps
    }

    /// The least time between frames.
    pub fn min_interval(&self) -> (d: Duration)
        ensures d.spec_nanos() == self.interval(),
    {
        self.min_interval
    }

    /// Whether frames are allowed at all.
    pub fn is_enabled(&self) -> (b: bool)
        ensures b == self.spec_enabled(),
    {
        self.enabled
    }

    /// Allow or stop frames.
    pub fn set_enabled(&mut self, enabled: bool)
        ensures
            final(self).spec_enabled() == enabled,
            final(self).spec_fps() == old(self).spec_fps(),
            final(self).interval() == old(self).interval(),
            final(self).last() == old(self).last(),
    {
        self.enabled = enabled;
    }

    /// Change the target frame rate (0 counts as 1) and the interval with it.
    pub fn set_fps(&mut self, fps: u32)
        ensures
            final(self).spec_fps() == (if fps == 0 { 1 } else { fps }),
            final(self).interval() == NANOS_PER_SECOND / (final(self).spec_fps() as u64),
            final(self).last() == old(self).last(),
            final(self).spec_enabled() == old(self).spec_enabled(),
    {
        let fps = if fps == 0 { 1 } else { fps };
        let interval_ns = NANOS_PER_SECOND / (fps as u64);
        self.fps = fps;
        self.min_interval = Duration::from_nanos(interval_ns);
    }

    /// Whether a frame may be drawn at `current_time`: never when disabled,
    /// else when [`AnimationFrameRate::spec_ready`]; an allowed frame
    /// becomes the last one.
    pub fn should_frame_duration(&mut self, current_time: Duration) -> (b: bool)
        ensures
            b == (old(self).spec_enabled() && old(self).spec_ready(current_time.spec_nanos())),
            final(self).last() == (if b { Some(current_time.spec_nanos()) } else { old(self).last() }),
            final(self).spec_fps() == old(self).spec_fps(),
            final(self).interval() == old(self).interval(),
            final(self).spec_enabled() == old(self).spec_enabled(),
    {
        if !self.enabled {
            return false;
        }
        let now = current_time.as_nanos();
        let ready = match self.last_frame_time {
            None => true,
            Some(last) => {
                let l = last.as_nanos();
                now >= l && now - l >= self.min_interval.as_nanos()
            },
        };
        if ready {
            self.last_frame_time = Some(current_time);
        }
        ready
    }

    /// [`AnimationFrameRate::should_frame_duration`] at a time given in
    /// nanoseconds.
    pub fn should_frame(&mut self, current_time_nanos: u64) -> (b: bool)
        ensures
            b == (old(self).spec_enabled() && old(self).spec_ready(current_time_nanos as u128)),
            final(self).last() == (if b { Some(current_time_nanos as u128) } else { old(self).last() }),
            final(self).spec_fps() == old(self).spec_fps(),
            final(self).interval() == old(self).interval(),
            final(self).spec_enabled() == old(self).spec_enabled(),
    {
        self.should_frame_duration(Duration::from_nanos(current_time_nanos))
    }

    /// Forget the last frame, so that the next request is allowed.
    pub fn reset(&mut self)
        ensures
            final(self).last() is None,
            final(self).spec_fps() == old(self).spec_fps(),
            final(self).interval() == old(self).interval(),
            final(self).spec_enabled() == old(self).spec_enabled(),
    {
        self.last_frame_time = None;
    }

    /// The time left until a frame is allowed at `current_time`.
    pub fn duration_until_next_frame(&self, current_time: Duration) -> (d: Duration)
        ensures d.spec_nanos() == self.spec_wait(current_time.spec_nanos()),
    {
        match self.last_frame_time {
            None => Duration::zero(),
            Some(last) => {
                let now = current_time.as_nanos();
                let l = last.as_nanos();
                let elapsed = if now >= l { now - l } else { 0 };
                let interval = self.min_interval.as_nanos();
                if elapsed >= interval {
                    Duration::zero()
                } else {
                    Duration { nanos: interval - elapsed }
                }
            },
        }
    }

    /// The nanoseconds left until a frame is allowed at a time given in
    /// nanoseconds, cut to 64 bits.
    pub fn time_until_next_frame(&self, current_time_nanos: u64) -> (n: u64)
        ensures n == self.spec_wait(current_time_nanos as u128) as u64,
    {
        let d = self.duration_until_next_frame(Duration::from_nanos(current_time_nanos));
        (#[verifier::truncate] (d.as_nanos() as u64))
    }
}

impl Default for AnimationFrameRate {
    /// Sixty frames per second.
    fn default() -> (a: AnimationFrameRate)
        ensures
            a.spec_fps() == 60,
            a.interval() == NANOS_PER_SECOND / 60,
            a.last() is None,
            a.spec_enabled(),
    {
        AnimationFrameRate::new(60)
    }
}

/// While enabled, a frame request succeeds exactly when no time is left to
/// wait, unless the clock went back before the last frame.
pub proof fn lemma_ready_iff_no_wait(a: AnimationFrameRate, now: u128)
    requires
        a.last() matches Some(last) ==> now >= last,
    ensures
        a.spec_ready(now) <==> a.spec_wait(now) == 0,
{
}

/// After an allowed frame at `t`, a request at `t2` is allowed exactly when
/// `t2` is at least one interval after `t`.
pub proof fn lemma_frames_spaced(a: AnimationFrameRate, t: u128, t2: u128)
    requires
        a.last() == Some(t),
    ensures
        a.spec_ready(t2) <==> (t2 >= t && t2 - t >= a.interval()),
{
}

} // verus!
