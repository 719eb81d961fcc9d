use vstd::prelude::*;

verus! {

/// Length of the window over which the longest frame is kept, in microseconds.
pub const MAX_WINDOW: u64 = 5_000_000;

/// The longest frame seen since the window last restarted.
pub struct FrameStats {
    pub max_frame_time: u64,
    pub window_start: u64,
}

impl FrameStats {
    /// No frame seen yet; the window starts at `now` microseconds.
    pub fn new(now: u64) -> (r: FrameStats)
        ensures
            r.max_frame_time == 0,
            r.window_start == now,
    {
        FrameStats { max_frame_time: 0, window_start: now }
    }

    /// Takes a frame of `frame_time` microseconds into the maximum; then, if
    /// more than the window has passed since it started, restarts the window
    /// at `now` with no maximum.
    pub fn record_frame(&mut self, frame_time: u64, now: u64)
        ensures
            now > old(self).window_start + MAX_WINDOW ==> final(self).max_frame_time == 0
                && final(self).window_start == now,
            now <= old(self).window_start + MAX_WINDOW ==> final(self).window_start
                == old(self).window_start && final(self).max_frame_time == if frame_time
                > old(self).max_frame_time {
                frame_time
            } else {
                old(self).max_frame_time
            },
    {
        if frame_time > self.max_frame_time {
            self.max_frame_time = frame_time;
        }
        if now > self.window_start && now - self.window_start > MAX_WINDOW {
            self.window_start = now;
            self.max_frame_time = 0;
        }
    }
}

} // verus!
