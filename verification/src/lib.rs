//! Protocol core of an LED-strip controller firmware.
//!
//! The hardware-facing pieces of the firmware — a cycle-accurate delay
//! primitive, a single-wire LED pulse encoder, a bit-banged synchronous
//! serial engine, and a wear-aware non-volatile write manager — are verified
//! here against explicit models of the peripheral registers they drive.

use vstd::prelude::*;

pub mod control;
pub mod delay;
pub mod eeprom;
pub mod fault;
pub mod led;
pub mod packet;
pub mod pins;
pub mod spi;

verus! {

/// Number of addressable colors on the strip driven by one data line.
pub const LED_STRIP_LENGTH: u16 = 375;

} // verus!
