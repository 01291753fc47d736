//! Output pin models.
//!
//! Each pin the firmware drives is modelled as a level it owns. The radio's
//! chip-select pin keeps the settle delay its hardware needs after rising.

use crate::delay::CycleClock;
use crate::delay::delay_cycles_short;
use crate::delay::short_delay_cost;
use vstd::prelude::*;

verus! {

/// Chip-enable stand-in for a line that is permanently tied active: driving
/// it changes nothing.
pub struct NoopPin;

impl NoopPin {
    /// Drive low: no effect, the line is not wired.
    pub fn set_low(&mut self) {
    }

    /// Drive high: no effect, the line is not wired.
    pub fn set_high(&mut self) {
    }
}

/// Chip-select pin of the radio peer, active low.
pub struct CSNPin {
    pub level: bool,
}

impl CSNPin {
    /// Select the peer.
    pub fn set_low(&mut self)
        ensures
            !final(self).level,
    {
        self.level = false;
    }

    /// Deselect the peer, then hold for the settle time (about 12 us at the
    /// target clock) before anything else touches the bus.
    pub fn set_high(&mut self, clock: &mut CycleClock)
        requires
            old(clock).elapsed + short_delay_cost(192) <= u64::MAX,
        ensures
            final(self).level,
            final(clock).elapsed == old(clock).elapsed + short_delay_cost(192),
    {
        self.level = true;
        delay_cycles_short(clock, 192);
    }
}

/// The LED data / diagnostic output pin.
pub struct PB4 {
    pub level: bool,
}

impl PB4 {
    /// Drive the line low.
    pub fn set_low(&mut self)
        ensures
            !final(self).level,
    {
        self.level = false;
    }

    /// Drive the line high.
    pub fn set_high(&mut self)
        ensures
            final(self).level,
    {
        self.level = true;
    }

    /// Invert the line, as a write to the port's input register does.
    pub fn toggle(&mut self)
        ensures
            final(self).level == !old(self).level,
    {
        self.level = !self.level;
    }
}

} // verus!
