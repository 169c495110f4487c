//! Frame pacing: how long to wait so that frames come at a fixed rate.
use vstd::prelude::*;

verus! {

/// Paces a loop at `fps` frames per second from a millisecond tick counter.
#[derive(Clone, Copy, Debug, PartialEq, Eq, Structural)]
pub struct RateLimiter {
    pub fps: u32,
    pub last_ticks: u32,
}

/// Milliseconds that one frame lasts at `fps` frames per second.
pub open spec fn frame_ms(fps: u32) -> int {
    1000int / (fps as int)
}

/// Milliseconds elapsed from `last` to `now` on a counter that wraps at 2^32.
pub open spec fn elapsed_ms(last: u32, now: u32) -> int {
    if now >= last {
        now - last
    } else {
        now + 0x1_0000_0000 - last
    }
}

impl RateLimiter {
    pub fn new(fps: u32) -> (r: RateLimiter)
        ensures
            r == (RateLimiter { fps, last_ticks: 0 }),
    {
        RateLimiter { fps, last_ticks: 0 }
    }

    /// Takes the tick count read at the start of a frame and returns how many
    /// milliseconds to sleep so that the frame lasts `1000 / fps` ms since the
    /// previous call: the remainder of that time, or 0 once it has passed.
    /// The tick count is kept for the next call.
    pub fn limit(&mut self, ticks: u32) -> (delay: u32)
        requires
            old(self).fps > 0,
        ensures
            final(self).fps == old(self).fps,
            final(self).last_ticks == ticks,
            elapsed_ms(old(self).last_ticks, ticks) < frame_ms(old(self).fps) ==> delay
                == frame_ms(old(self).fps) - elapsed_ms(old(self).last_ticks, ticks),
            elapsed_ms(old(self).last_ticks, ticks) >= frame_ms(old(self).fps) ==> delay == 0,
    {
        let adjusted_ticks = ticks.wrapping_sub(self.last_ticks);
        let frame = 1000 / self.fps;
        let delay = if adjusted_ticks < frame {
            frame - adjusted_ticks
        } else {
            0
        };
        self.last_ticks = ticks;
        delay
    }
}

} // verus!
