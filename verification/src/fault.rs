//! Fault state capture.
//!
//! One reserved byte in non-volatile storage records whether the previous
//! run ended in the unrecoverable trap: it is written CLEAR at normal
//! startup and FAULT immediately before the terminal blink loop, and never
//! rewritten inside the loop itself, so diagnostic tooling can read it
//! after a reset.

use crate::delay::CycleClock;
use crate::delay::delay_cycles;
use crate::delay::long_delay_cost;
use crate::eeprom::CommitRecord;
use crate::eeprom::Eeprom;
use crate::eeprom::EepromMode;
use crate::eeprom::write_kind;
use crate::pins::PB4;
use vstd::prelude::*;

verus! {

/// Address of the fault marker: the last byte of the storage array.
pub const FAULT_MARKER_ADDRESS: u16 = 511;

/// Marker value after a normal boot (the erased pattern).
pub const MARKER_CLEAR: u8 = 0xFF;

/// Marker value recorded on the way into the terminal trap.
pub const MARKER_FAULT: u8 = 0b1010_1010;

/// At normal startup: clear the fault marker left by a previous run. A
/// marker already clear commits nothing; a set marker costs exactly one
/// erase-only operation, the clear pattern being the erased one.
pub fn clear_fault_marker(e: &mut Eeprom)
    requires
        FAULT_MARKER_ADDRESS < old(e).cells@.len(),
    ensures
        final(e).cells@ == old(e).cells@.update(FAULT_MARKER_ADDRESS as int, MARKER_CLEAR),
        final(e).cells@[FAULT_MARKER_ADDRESS as int] == MARKER_CLEAR,
        old(e).cells@[FAULT_MARKER_ADDRESS as int] == MARKER_CLEAR ==> final(e).commits@ == old(e).commits@,
        old(e).cells@[FAULT_MARKER_ADDRESS as int] != MARKER_CLEAR ==> final(e).commits@ == old(e).commits@.push(
            CommitRecord { mode: EepromMode::EraseOnly, address: FAULT_MARKER_ADDRESS },
        ),
{
    crate::eeprom::write(e, FAULT_MARKER_ADDRESS, MARKER_CLEAR);
}

/// On an unrecoverable error: record the fault pattern, to be read back
/// after the reset that ends the trap. At most one operation is committed,
/// the one the wear manager selects; none when the marker already holds
/// the pattern.
pub fn record_fault(e: &mut Eeprom)
    requires
        FAULT_MARKER_ADDRESS < old(e).cells@.len(),
    ensures
        final(e).cells@ == old(e).cells@.update(FAULT_MARKER_ADDRESS as int, MARKER_FAULT),
        final(e).cells@[FAULT_MARKER_ADDRESS as int] == MARKER_FAULT,
        old(e).cells@[FAULT_MARKER_ADDRESS as int] == MARKER_FAULT ==> final(e).commits@ == old(e).commits@,
        old(e).cells@[FAULT_MARKER_ADDRESS as int] != MARKER_FAULT ==> final(e).commits@ == old(e).commits@.push(
            CommitRecord {
                mode: write_kind(old(e).cells@[FAULT_MARKER_ADDRESS as int], MARKER_FAULT),
                address: FAULT_MARKER_ADDRESS,
            },
        ),
{
    crate::eeprom::write(e, FAULT_MARKER_ADDRESS, MARKER_FAULT);
}

/// Read the marker the previous run left behind.
pub fn read_fault_marker(e: &mut Eeprom) -> (marker: u8)
    requires
        FAULT_MARKER_ADDRESS < old(e).cells@.len(),
    ensures
        marker == old(e).cells@[FAULT_MARKER_ADDRESS as int],
        final(e).cells@ == old(e).cells@,
        final(e).commits@ == old(e).commits@,
{
    crate::eeprom::read(e, FAULT_MARKER_ADDRESS)
}

/// One pass of the terminal trap: wait, then invert the diagnostic pin.
/// The trap performs no persistent write; it only blinks, forever.
pub fn trap_blink_step(pin: &mut PB4, clock: &mut CycleClock)
    requires
        old(clock).elapsed + long_delay_cost(10000) <= u64::MAX,
    ensures
        final(pin).level == !old(pin).level,
        final(clock).elapsed == old(clock).elapsed + long_delay_cost(10000),
{
    delay_cycles(clock, 10000);
    pin.toggle();
}

} // verus!
