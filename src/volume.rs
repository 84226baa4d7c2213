//! Output gain, in thousandths of full volume, clamped on every write.

use vstd::prelude::*;

verus! {

/// Full volume.
pub const VOLUME_MAX: u32 = 1000;

/// Step of one increase or decrease (5%).
pub const VOLUME_STEP: u32 = 50;

/// Volume at start-up (50%).
pub const VOLUME_START: u32 = 500;

/// `v` bounded to `[0, VOLUME_MAX]`.
pub open spec fn clamp_volume(v: int) -> int {
    if v < 0 {
        0
    } else if v > VOLUME_MAX {
        VOLUME_MAX as int
    } else {
        v
    }
}

/// Output gain of the player.
pub struct Volume {
    level: u32,
}

impl View for Volume {
    type V = int;

    closed spec fn view(&self) -> int {
        self.level as int
    }
}

impl Volume {
    /// The gain never exceeds full volume.
    pub open spec fn wf(&self) -> bool {
        0 <= self@ <= VOLUME_MAX
    }

    pub fn new() -> (r: Self)
        ensures
            r.wf(),
            r@ == VOLUME_START,
    {
        Volume { level: VOLUME_START }
    }

    /// The gain, in thousandths.
    pub fn level(&self) -> (r: u32)
        ensures
            r == self@,
    {
        self.level
    }

    /// Sets the gain to `v` thousandths, clamped to `[0, VOLUME_MAX]`.
    pub fn set(&mut self, v: i64)
        ensures
            final(self).wf(),
            final(self)@ == clamp_volume(v as int),
    {
        self.level = if v < 0 {
            0
        } else if v > VOLUME_MAX as i64 {
            VOLUME_MAX
        } else {
            v as u32
        };
    }

    /// Raises the gain by one step, up to full volume.
    pub fn increase(&mut self)
        requires
            old(self).wf(),
        ensures
            final(self).wf(),
            final(self)@ == clamp_volume(old(self)@ + VOLUME_STEP),
    {
        let v = self.level as i64 + VOLUME_STEP as i64;
        self.set(v);
    }

    /// Lowers the gain by one step, down to silence.
    pub fn decrease(&mut self)
        requires
            old(self).wf(),
        ensures
            final(self).wf(),
            final(self)@ == clamp_volume(old(self)@ - VOLUME_STEP),
    {
        let v = self.level as i64 - VOLUME_STEP as i64;
        self.set(v);
    }
}

} // verus!
