//! Fixed-timestep decoupling.
//!
//! The host calls the simulation once per rendered frame with a wall-clock
//! delta; the accumulator converts those variable deltas into zero or one
//! discrete simulation ticks per call, keeping the physics rate independent
//! of the host's frame rate.

use vstd::prelude::*;

verus! {

/// A simulation tick fires once this many milliseconds have accumulated.
pub const TICK_THRESHOLD_MS: u64 = 75;

/// Accumulates unconsumed wall-clock time, in milliseconds.
pub struct FrameAccumulator {
    /// Milliseconds carried over from earlier calls.
    pub accumulated_ms: u64,
}

/// Whether a tick fires when `elapsed` milliseconds arrive on top of `acc`.
pub open spec fn tick_fires(acc: int, elapsed: int) -> bool {
    acc + elapsed > TICK_THRESHOLD_MS as int
}

impl FrameAccumulator {
    /// The carried-over time never exceeds the threshold: every call that
    /// pushes it past the threshold resets it to zero.
    pub open spec fn wf(self) -> bool {
        self.accumulated_ms <= TICK_THRESHOLD_MS
    }

    /// An empty accumulator.
    pub fn new() -> (f: FrameAccumulator)
        ensures
            f.accumulated_ms == 0,
            f.wf(),
    {
        FrameAccumulator { accumulated_ms: 0 }
    }

    /// Adds one frame's elapsed time; reports whether one simulation tick
    /// should run, resetting the accumulator when it does.
    pub fn accumulate(&mut self, elapsed_ms: u32) -> (ticked: bool)
        requires
            old(self).wf(),
        ensures
            ticked == tick_fires(old(self).accumulated_ms as int, elapsed_ms as int),
            final(self).accumulated_ms == (if ticked {
                0int
            } else {
                old(self).accumulated_ms + elapsed_ms
            }),
            final(self).wf(),
    {
        self.accumulated_ms = self.accumulated_ms + elapsed_ms as u64;
        if self.accumulated_ms > TICK_THRESHOLD_MS {
            self.accumulated_ms = 0;
            true
        } else {
            false
        }
    }
}

} // verus!
