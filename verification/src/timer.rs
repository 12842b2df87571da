//! The periodic timer, driven through the firmware gateway.
//!
//! The hardware timer is one-shot: each interrupt must re-arm the next one,
//! or timer interrupts stop for good.  This module owns that decision.  The
//! caller reads the hardware time counter and performs the gateway call; the
//! library says at which absolute time the next interrupt must fire and
//! counts the ticks.

use vstd::prelude::*;

use crate::config::{TICKS_PER_HEARTBEAT, TIMER_CLOCK_INTERVAL};

verus! {

/// The tick counter, incremented once per timer interrupt.
#[derive(Clone, Copy, Debug, Eq, PartialEq, Structural)]
pub struct Timer {
    /// Timer interrupts handled so far.
    pub ticks: u64,
}

/// The absolute hardware time at which the next timer interrupt must fire.
pub fn next_deadline(now: u64) -> (r: u64)
    requires
        now + TIMER_CLOCK_INTERVAL <= u64::MAX,
    ensures
        r == now + TIMER_CLOCK_INTERVAL,
{
    now + TIMER_CLOCK_INTERVAL
}

impl Timer {
    /// A timer that has seen no interrupt yet.
    pub fn new() -> (r: Timer)
        ensures
            r.ticks == 0,
    {
        Timer { ticks: 0 }
    }

    /// Handle one timer interrupt at hardware time `now`: count it and
    /// demand the next one.  Returns the absolute time of the next
    /// interrupt — the caller must pass it to the firmware gateway on every
    /// call, else the one-shot timer never fires again — and whether this
    /// tick owes a heartbeat diagnostic.
    pub fn tick(&mut self, now: u64) -> (r: (u64, bool))
        requires
            old(self).ticks < u64::MAX,
            now + TIMER_CLOCK_INTERVAL <= u64::MAX,
        ensures
            final(self).ticks == old(self).ticks + 1,
            r.0 == now + TIMER_CLOCK_INTERVAL,
            r.1 == (final(self).ticks % TICKS_PER_HEARTBEAT == 0),
    {
        let deadline = next_deadline(now);
        self.ticks = self.ticks + 1;
        (deadline, self.ticks % TICKS_PER_HEARTBEAT == 0)
    }
}

} // verus!
