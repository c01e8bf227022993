//! Indicator task logic.
//!
//! A cosmetic blinker: one output toggles on a fixed period while a second
//! stays steadily lit. It matters here only because it takes part in the
//! cooperative shutdown protocol: the task polls its stop flag first on every
//! cycle, and on the first poll that sees the flag it drives both outputs low
//! and terminates, leaving the hardware in a defined idle state.

use vstd::prelude::*;

verus! {

/// Milliseconds between blink polls.
pub const BLINK_PERIOD_MILLIS: u64 = 70;

/// The indicator's outputs and whether it has terminated.
#[derive(Debug, Clone, Copy, PartialEq, Eq, Structural)]
pub struct Indicator {
    /// Level of the blinking output.
    pub blink_high: bool,
    /// Level of the steady output.
    pub steady_high: bool,
    /// Whether the task has observed the stop flag and exited its loop.
    pub stopped: bool,
}

/// A freshly spawned indicator: both outputs high, still running.
pub open spec fn indicator_init() -> Indicator {
    Indicator { blink_high: true, steady_high: true, stopped: false }
}

/// One polling cycle: a set stop flag drives both outputs low and terminates;
/// otherwise the blinking output toggles.
pub open spec fn indicator_step(i: Indicator, stop: bool) -> Indicator {
    if stop {
        Indicator { blink_high: false, steady_high: false, stopped: true }
    } else {
        Indicator { blink_high: !i.blink_high, steady_high: i.steady_high, stopped: i.stopped }
    }
}

impl Indicator {
    /// Spawns the indicator with both outputs driven high.
    pub fn new() -> (i: Self)
        ensures
            i == indicator_init(),
    {
        Indicator { blink_high: true, steady_high: true, stopped: false }
    }

    /// One polling cycle; the stop check comes first. Returns whether the
    /// task terminates: after a poll that saw the stop flag, both outputs are
    /// low and no further side effect follows.
    pub fn poll(&mut self, stop: bool) -> (done: bool)
        ensures
            *final(self) == indicator_step(*old(self), stop),
            done == stop,
            stop ==> !final(self).blink_high && !final(self).steady_high && final(self).stopped,
    {
        if stop {
            self.blink_high = false;
            self.steady_high = false;
            self.stopped = true;
            true
        } else {
            self.blink_high = !self.blink_high;
            false
        }
    }
}

} // verus!
