//! Wear-aware non-volatile byte storage.
//!
//! The storage controller is modelled register for register: an address
//! register, a data register, and a control register whose commit bit only
//! takes effect through a two-step handshake (arm with the commit bit low,
//! then raise it). The write manager on top picks the cheapest operation
//! that suffices — skip, erase-only, program-only, or combined
//! erase+program — because the medium's endurance budget is shared across
//! the device's whole service life. The model logs every committed
//! operation, so wear claims are stated over the log.

use vstd::prelude::*;

verus! {

/// Bytes the storage array holds.
pub const EEPROM_SIZE: u16 = 512;

/// Mode of a committed storage operation.
#[derive(Clone, Copy, PartialEq, Eq, Structural, Debug)]
pub enum EepromMode {
    /// Reset the byte to the erased pattern `0xFF`.
    EraseOnly,
    /// Clear bits only: the cell becomes `previous & data`.
    ProgramOnly,
    /// Erase, then program: the cell becomes `data`.
    EraseAndProgram,
}

/// One committed hardware operation, as the instrumented controller logs it.
#[derive(Clone, Copy, PartialEq, Eq, Structural, Debug)]
pub struct CommitRecord {
    pub mode: EepromMode,
    pub address: u16,
}

/// What a committed operation leaves in the addressed cell.
pub open spec fn apply_mode(mode: EepromMode, previous: u8, data: u8) -> u8 {
    match mode {
        EepromMode::EraseOnly => 0xFF,
        EepromMode::ProgramOnly => previous & data,
        EepromMode::EraseAndProgram => data,
    }
}

/// Register-level model of the storage controller.
///
/// `cells` is the non-volatile array; it survives a reset, while every
/// driver call re-reads it through the registers. `commits` is a probe: the
/// ordered log of operations that actually reached the array.
pub struct Eeprom {
    pub cells: Vec<u8>,
    pub eear: u16,
    pub eedr: u8,
    pub armed: Option<EepromMode>,
    pub busy: bool,
    pub commits: Vec<CommitRecord>,
}

impl Eeprom {
    /// A freshly erased device: every cell holds `0xFF`.
    pub fn new() -> (e: Eeprom)
        ensures
            e.cells@.len() == EEPROM_SIZE,
            forall|i: int| 0 <= i < EEPROM_SIZE ==> e.cells@[i] == 0xFF,
            e.armed is None,
            !e.busy,
            e.commits@.len() == 0,
    {
        let mut cells: Vec<u8> = Vec::new();
        let mut i: u16 = 0;
        while i < EEPROM_SIZE
            invariant
                i <= EEPROM_SIZE,
                cells@.len() == i,
                forall|j: int| 0 <= j < i ==> cells@[j] == 0xFF,
            decreases EEPROM_SIZE - i,
        {
            cells.push(0xFF);
            i = i + 1;
        }
        Eeprom { cells, eear: 0, eedr: 0, armed: None, busy: false, commits: Vec::new() }
    }

    /// Write the address register.
    fn select(&mut self, address: u16)
        requires
            address < old(self).cells@.len(),
        ensures
            *final(self) == (Eeprom { eear: address, ..*old(self) }),
    {
        self.eear = address;
    }

    /// Write the data register.
    fn load_data(&mut self, value: u8)
        ensures
            *final(self) == (Eeprom { eedr: value, ..*old(self) }),
    {
        self.eedr = value;
    }

    /// Pulse the read-enable bit: the addressed cell appears in the data
    /// register. Like any control-register write, it drops the armed state.
    fn read_enable(&mut self) -> (value: u8)
        requires
            old(self).eear < old(self).cells@.len(),
        ensures
            value == old(self).cells@[old(self).eear as int],
            *final(self) == (Eeprom { eedr: value, armed: None, ..*old(self) }),
    {
        self.armed = None;
        let value = self.cells[self.eear as usize];
        self.eedr = value;
        value
    }

    /// Write the control register with the given mode, master-enable and
    /// commit bits.
    ///
    /// The array rejects single-write commits: a commit takes effect only
    /// when the previous control write armed the same mode with the commit
    /// bit low. An effective commit applies the mode to the addressed cell,
    /// appends to the log, and leaves the controller busy.
    fn control_write(&mut self, mode: EepromMode, master_enable: bool, commit: bool)
        requires
            old(self).eear < old(self).cells@.len(),
        ensures
            commit && master_enable && old(self).armed == Some(mode) ==> (final(self).cells@
                == old(self).cells@.update(
                old(self).eear as int,
                apply_mode(mode, old(self).cells@[old(self).eear as int], old(self).eedr),
            ) && final(self).commits@ == old(self).commits@.push(
                CommitRecord { mode, address: old(self).eear },
            ) && final(self).armed is None && final(self).busy && final(self).eear == old(
                self,
            ).eear && final(self).eedr == old(self).eedr),
            !(commit && master_enable && old(self).armed == Some(mode)) && master_enable
                && !commit ==> *final(self) == (Eeprom { armed: Some(mode), ..*old(self) }),
            !(commit && master_enable && old(self).armed == Some(mode)) && !(master_enable
                && !commit) ==> *final(self) == (Eeprom { armed: None, ..*old(self) }),
    {
        let effective = commit && master_enable && match self.armed {
            Some(armed_mode) => armed_mode == mode,
            None => false,
        };
        if effective {
            let previous = self.cells[self.eear as usize];
            let new_value = match mode {
                EepromMode::EraseOnly => 0xFF,
                EepromMode::ProgramOnly => previous & self.eedr,
                EepromMode::EraseAndProgram => self.eedr,
            };
            let idx = self.eear as usize;
            self.cells[idx] = new_value;
            self.commits.push(CommitRecord { mode, address: self.eear });
            self.armed = None;
            self.busy = true;
        } else if master_enable && !commit {
            self.armed = Some(mode);
        } else {
            self.armed = None;
        }
    }
}

/// Wait until no programming operation is in flight.
pub fn flush(e: &mut Eeprom)
    ensures
        *final(e) == (Eeprom { busy: false, ..*old(e) }),
{
    e.busy = false;
}

/// The operation the write manager selects for a cell that holds
/// `previous` and must come to hold `new_value` (the two differing).
pub open spec fn write_kind(previous: u8, new_value: u8) -> EepromMode {
    if new_value == 0xFF {
        EepromMode::EraseOnly
    } else if previous & new_value == new_value {
        EepromMode::ProgramOnly
    } else {
        EepromMode::EraseAndProgram
    }
}

/// Writing the erased pattern selects the erase-only operation, whatever
/// the cell held before.
pub proof fn lemma_erase_only_branch(previous: u8)
    ensures
        write_kind(previous, 0xFF) == EepromMode::EraseOnly,
{
}

/// A change that only clears bits — every bit of the new value already
/// stands in the old one — programs without erasing, never erase+program.
pub proof fn lemma_program_only_branch(previous: u8, new_value: u8)
    requires
        new_value != previous,
        previous & new_value == new_value,
    ensures
        write_kind(previous, new_value) == EepromMode::ProgramOnly,
{
    assert(previous & 0xFF == previous) by (bit_vector);
}

/// Any other change — some bit must rise from 0 to 1 and the value is not
/// the erased pattern — takes the combined erase+program operation.
pub proof fn lemma_erase_program_branch(previous: u8, new_value: u8)
    requires
        new_value != previous,
        new_value != 0xFF,
        previous & new_value != new_value,
    ensures
        write_kind(previous, new_value) == EepromMode::EraseAndProgram,
{
}

/// Store `new_value` at `address`, issuing the cheapest sufficient
/// operation.
///
/// The cell always ends up holding `new_value`. A write that would not
/// change the stored byte commits nothing — the log is untouched — and any
/// other write commits exactly one operation, the one [`write_kind`]
/// selects.
pub fn write(e: &mut Eeprom, address: u16, new_value: u8)
    requires
        address < old(e).cells@.len(),
    ensures
        final(e).cells@ == old(e).cells@.update(address as int, new_value),
        old(e).cells@[address as int] == new_value ==> final(e).commits@ == old(e).commits@,
        old(e).cells@[address as int] != new_value ==> final(e).commits@ == old(e).commits@.push(
            CommitRecord {
                mode: write_kind(old(e).cells@[address as int], new_value),
                address,
            },
        ) && final(e).busy,
        old(e).cells@[address as int] == new_value ==> !final(e).busy,
{
    flush(e);
    e.select(address);
    let previous = e.read_enable();
    if previous == new_value {
        proof {
            assert(e.cells@ =~= old(e).cells@.update(address as int, new_value));
        }
        return;
    }
    if new_value == 0xFF {
        e.control_write(EepromMode::EraseOnly, true, false);
        e.control_write(EepromMode::EraseOnly, true, true);
    } else {
        e.load_data(new_value);
        if previous & new_value == new_value {
            e.control_write(EepromMode::ProgramOnly, true, false);
            e.control_write(EepromMode::ProgramOnly, true, true);
        } else {
            e.control_write(EepromMode::EraseAndProgram, true, false);
            e.control_write(EepromMode::EraseAndProgram, true, true);
        }
    }
}

/// Read the byte stored at `address`. Reading commits nothing.
pub fn read(e: &mut Eeprom, address: u16) -> (value: u8)
    requires
        address < old(e).cells@.len(),
    ensures
        value == old(e).cells@[address as int],
        *final(e) == (Eeprom {
            eear: address,
            eedr: value,
            armed: None,
            busy: false,
            ..*old(e)
        }),
{
    flush(e);
    e.select(address);
    e.read_enable()
}

} // verus!
