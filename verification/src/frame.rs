//! Frame timing. The clock is read by the caller and handed in as
//! milliseconds; nothing here keeps time in secret.

use vstd::prelude::*;

verus! {

/// How long the frame rate is kept before it is worked out anew, in whole
/// seconds.
pub const FPS_INTERVAL: u64 = 2;

/// A frame rate as the two counts it is the quotient of.
#[derive(Clone, Copy, Debug, PartialEq, Eq)]
pub struct FrameRate {
    pub frames: u64,
    pub seconds: u64,
}

/// Milliseconds from `since` to `now`; none if the clock went backwards.
pub open spec fn elapsed(now: u64, since: u64) -> u64 {
    if now >= since {
        (now - since) as u64
    } else {
        0
    }
}

/// A span of milliseconds as a step for the simulation, which takes no
/// more than `u32::MAX` at once.
pub open spec fn as_delta(span: u64) -> u32 {
    if span > u32::MAX {
        u32::MAX
    } else {
        span as u32
    }
}

/// Counts frames and says how long each took.
#[derive(Clone, Copy, Debug, PartialEq, Eq)]
pub struct FrameCounter {
    /// When counting started.
    pub begin: u64,
    pub frame_count: u64,
    pub last_frame_time: u64,
    pub last_update_time: u64,
    pub last_update_val: FrameRate,
}

impl FrameCounter {
    pub open spec fn spec_increment(self, now: u64) -> FrameCounter {
        FrameCounter {
            frame_count: if self.frame_count < u64::MAX {
                (self.frame_count + 1) as u64
            } else {
                self.frame_count
            },
            last_frame_time: now,
            ..self
        }
    }

    /// The rate is due once more than `FPS_INTERVAL` whole seconds have
    /// passed since it was last given.
    pub open spec fn fps_due(self, now: u64) -> bool {
        elapsed(now, self.last_update_time) / 1000 > FPS_INTERVAL
    }

    /// The frames counted so far over the whole seconds since the start.
    pub open spec fn rate(self, now: u64) -> FrameRate {
        FrameRate { frames: self.frame_count, seconds: elapsed(now, self.begin) / 1000 }
    }

    pub open spec fn spec_fps(self, now: u64) -> FrameCounter {
        if self.fps_due(now) {
            FrameCounter { last_update_val: self.rate(now), last_update_time: now, ..self }
        } else {
            self
        }
    }

    pub fn new(now: u64) -> (r: Self)
        ensures
            r == (FrameCounter {
                begin: now,
                frame_count: 0,
                last_frame_time: now,
                last_update_time: now,
                last_update_val: FrameRate { frames: 0, seconds: 0 },
            }),
    {
        FrameCounter {
            begin: now,
            frame_count: 0,
            last_frame_time: now,
            last_update_time: now,
            last_update_val: FrameRate { frames: 0, seconds: 0 },
        }
    }

    /// Counts a frame that ends at `now` and gives the milliseconds since
    /// the frame before.
    pub fn increment(&mut self, now: u64) -> (delta: u32)
        ensures
            delta == as_delta(elapsed(now, old(self).last_frame_time)),
            *final(self) == old(self).spec_increment(now),
    {
        let span = since(now, self.last_frame_time);
        if self.frame_count < u64::MAX {
            self.frame_count = self.frame_count + 1;
        }
        self.last_frame_time = now;
        if span > u32::MAX as u64 {
            u32::MAX
        } else {
            span as u32
        }
    }

    /// The frame rate since the start, given once per interval: `Some`
    /// if and only if it is due.
    pub fn fps(&mut self, now: u64) -> (r: Option<FrameRate>)
        ensures
            r == if old(self).fps_due(now) {
                Some(old(self).rate(now))
            } else {
                None
            },
            *final(self) == old(self).spec_fps(now),
    {
        if since(now, self.last_update_time) / 1000 > FPS_INTERVAL {
            self.last_update_val = FrameRate {
                frames: self.frame_count,
                seconds: since(now, self.begin) / 1000,
            };
            self.last_update_time = now;
            return Some(self.last_update_val);
        }
        None
    }
}

fn since(now: u64, start: u64) -> (r: u64)
    ensures
        r == elapsed(now, start),
{
    if now >= start {
        now - start
    } else {
        0
    }
}

} // verus!
