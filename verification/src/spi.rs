//! Software-clocked synchronous serial engine.
//!
//! The engine bit-bangs a clocked serial exchange over a minimal shift
//! register: writing loads a byte without clocking it, and a flush toggles
//! the clock until one whole byte has been exchanged. The peripheral is
//! modelled by [`LoopbackBus`], a shift register whose output line is wired
//! back to its input — the test bench the protocol's round-trip behaviour
//! is stated against. The bus records every byte clocked out, in order, and
//! counts completed exchanges, so both "these bytes went on the wire" and
//! "no bus transfer happened" are provable statements.

use vstd::prelude::*;

verus! {

/// One left rotation of the shift register: the bit shifted out of the top
/// re-enters at the bottom, as the loopback wire feeds it straight back.
pub open spec fn rotl(s: u8) -> u8 {
    (s << 1) | (s >> 7)
}

/// The register after `k` single-bit rotations of `s` (`k` at most 8).
pub open spec fn rotl_k(s: u8, k: u8) -> u8 {
    if k == 0 {
        s
    } else if k < 8 {
        (s << k) | (s >> ((8 - k) as u8))
    } else {
        s
    }
}

/// Rotating one more bit extends the rotation count.
proof fn lemma_rotl_step(s: u8, k: u8)
    requires
        k < 8,
    ensures
        rotl(rotl_k(s, k)) == rotl_k(s, (k + 1) as u8),
{
    assert(rotl(rotl_k(s, k)) == rotl_k(s, (k + 1) as u8)) by (bit_vector)
        requires
            k < 8,
    ;
}

/// Shift-register peripheral with its data-out pin wired to data-in.
///
/// `shift` is the one register that serves as both shift-out load and
/// shift-in capture. Two probes instrument the bus: `sent` logs every byte
/// clocked out, in order — what a peer on the wire would have seen — and
/// `transfer_count` counts completed byte exchanges.
pub struct LoopbackBus {
    pub shift: u8,
    pub transfer_count: u64,
    pub sent: Vec<u8>,
}

impl LoopbackBus {
    /// A bus on which nothing has been exchanged yet.
    pub fn new() -> (bus: LoopbackBus)
        ensures
            bus.shift == 0,
            bus.transfer_count == 0,
            bus.sent@.len() == 0,
    {
        LoopbackBus { shift: 0, transfer_count: 0, sent: Vec::new() }
    }

    /// Load a byte into the shift register without clocking it.
    fn load(&mut self, byte: u8)
        ensures
            final(self).shift == byte,
            final(self).transfer_count == old(self).transfer_count,
            final(self).sent@ == old(self).sent@,
    {
        self.shift = byte;
    }

    /// Read the shift register.
    fn capture(&self) -> (byte: u8)
        ensures
            byte == self.shift,
    {
        self.shift
    }

    /// Clock one whole byte out and in: eight single-bit shifts, each
    /// re-capturing its own output bit over the loopback wire, so the
    /// register ends where it started. The byte clocked out joins the
    /// `sent` log and the exchange counts as one bus transfer. On the
    /// target, a short fixed delay sits between clock toggles to cap the
    /// bit rate well below the peripheral's nominal capability.
    fn exchange(&mut self)
        requires
            old(self).transfer_count < u64::MAX,
        ensures
            final(self).shift == old(self).shift,
            final(self).transfer_count == old(self).transfer_count + 1,
            final(self).sent@ == old(self).sent@.push(old(self).shift),
    {
        let ghost s0 = self.shift;
        let mut bit: u8 = 0;
        while bit < 8
            invariant
                bit <= 8,
                self.shift == rotl_k(s0, bit),
                self.transfer_count == old(self).transfer_count,
                self.sent@ == old(self).sent@,
            decreases 8 - bit,
        {
            proof {
                lemma_rotl_step(s0, bit);
            }
            self.shift = (self.shift << 1) | (self.shift >> 7);
            bit = bit + 1;
        }
        self.sent.push(self.shift);
        self.transfer_count = self.transfer_count + 1;
    }
}

/// Structural error channel of the engine. No operation ever produces one
/// in practice; the variant exists so the signatures carry the channel.
#[derive(Clone, Copy, PartialEq, Eq, Structural, Debug)]
pub enum SpiError {
    Bus,
}

/// Exchanges a flush will perform for already-loaded data: one when a byte
/// sits unclocked in the shift register, none when the engine is idle.
pub open spec fn pending_exchanges(spi: Spi) -> int {
    if spi.loaded() {
        1
    } else {
        0
    }
}

/// The bytes a flush will clock out for already-loaded data: the byte
/// sitting unclocked in the shift register, or nothing when the engine is
/// idle.
pub open spec fn pending_bytes(spi: Spi, bus: LoopbackBus) -> Seq<u8> {
    if spi.loaded() {
        seq![bus.shift]
    } else {
        Seq::empty()
    }
}

/// The serial engine: tracks whether a byte has been loaded into the shift
/// register but not yet clocked out (Loaded), or not (Idle).
pub struct Spi {
    needs_flush: bool,
}

impl Spi {
    /// Whether loaded data still awaits its flush.
    pub closed spec fn loaded(&self) -> bool {
        self.needs_flush
    }

    /// Configure the engine: the shift register is zeroed and nothing is
    /// pending.
    pub fn new(bus: &mut LoopbackBus) -> (spi: Spi)
        ensures
            !spi.loaded(),
            final(bus).shift == 0,
            final(bus).transfer_count == old(bus).transfer_count,
            final(bus).sent@ == old(bus).sent@,
    {
        bus.load(0);
        Spi { needs_flush: false }
    }

    /// Clock out any loaded byte; exactly one byte is exchanged per flush.
    /// Idempotent: when the engine is already Idle, the bus sees no
    /// transfer at all.
    pub fn flush(&mut self, bus: &mut LoopbackBus) -> (r: Result<(), SpiError>)
        requires
            old(bus).transfer_count < u64::MAX,
        ensures
            r is Ok,
            !final(self).loaded(),
            old(self).loaded() ==> final(bus).shift == old(bus).shift && final(bus).transfer_count
                == old(bus).transfer_count + 1 && final(bus).sent@ == old(bus).sent@.push(
                old(bus).shift,
            ),
            !old(self).loaded() ==> *final(bus) == *old(bus),
    {
        if self.needs_flush {
            bus.exchange();
            self.needs_flush = false;
        }
        Ok(())
    }

    /// Load each byte in turn, flushing whatever was loaded before it. The
    /// wire sees any prior pending byte followed by all words but the
    /// last, which stays loaded, not yet clocked out.
    pub fn write(&mut self, bus: &mut LoopbackBus, words: &Vec<u8>) -> (r: Result<(), SpiError>)
        requires
            old(bus).transfer_count + words@.len() <= u64::MAX,
        ensures
            r is Ok,
            words@.len() == 0 ==> *final(self) == *old(self) && *final(bus) == *old(bus),
            words@.len() > 0 ==> final(self).loaded() && final(bus).shift == words@[words@.len()
                - 1] && final(bus).transfer_count == old(bus).transfer_count + words@.len() - 1
                + pending_exchanges(*old(self)) && final(bus).sent@ == old(bus).sent@
                + pending_bytes(*old(self), *old(bus)) + words@.take(words@.len() - 1),
    {
        let ghost self0 = *self;
        let ghost bus0 = *bus;
        let mut i: usize = 0;
        while i < words.len()
            invariant
                i <= words@.len(),
                bus0.transfer_count + words@.len() <= u64::MAX,
                i == 0 ==> *self == self0 && *bus == bus0,
                i > 0 ==> self.loaded() && bus.shift == words@[i - 1] && bus.transfer_count
                    == bus0.transfer_count + i - 1 + pending_exchanges(self0) && bus.sent@
                    == bus0.sent@ + pending_bytes(self0, bus0) + words@.take(i - 1),
            decreases words@.len() - i,
        {
            self.flush(bus)?;
            proof {
                if i == 0 {
                    assert(bus.sent@ =~= bus0.sent@ + pending_bytes(self0, bus0)
                        + words@.take(0));
                } else {
                    assert(bus.sent@ =~= bus0.sent@ + pending_bytes(self0, bus0)
                        + words@.take(i as int));
                }
            }
            bus.load(words[i]);
            self.needs_flush = true;
            i = i + 1;
        }
        Ok(())
    }

    /// Capture each requested byte, first flushing any prior loaded data,
    /// then driving a dummy zero out for every byte read. On the loopback
    /// bus every captured byte is that dummy zero.
    pub fn read(&mut self, bus: &mut LoopbackBus, words: &mut Vec<u8>) -> (r: Result<
        (),
        SpiError,
    >)
        requires
            old(bus).transfer_count + old(words)@.len() + 1 <= u64::MAX,
        ensures
            r is Ok,
            final(words)@.len() == old(words)@.len(),
            old(words)@.len() == 0 ==> *final(self) == *old(self) && *final(bus) == *old(bus)
                && final(words)@ == old(words)@,
            old(words)@.len() > 0 ==> !final(self).loaded() && final(bus).shift == 0
                && final(bus).transfer_count == old(bus).transfer_count + old(words)@.len()
                + pending_exchanges(*old(self)) && final(bus).sent@ == old(bus).sent@
                + pending_bytes(*old(self), *old(bus)) + Seq::new(old(words)@.len(), |k: int| 0u8)
                && forall|i: int| 0 <= i < old(words)@.len() ==> final(words)@[i] == 0,
    {
        let ghost self0 = *self;
        let ghost bus0 = *bus;
        if words.len() > 0 {
            self.flush(bus)?;
            proof {
                assert(bus.sent@ =~= bus0.sent@ + pending_bytes(self0, bus0)
                    + Seq::new(0, |k: int| 0u8));
            }
            let mut i: usize = 0;
            while i < words.len()
                invariant
                    i <= words@.len(),
                    words@.len() == old(words)@.len(),
                    words@.len() > 0,
                    bus0.transfer_count + words@.len() + 1 <= u64::MAX,
                    !self.loaded(),
                    bus.shift == (if i == 0 {
                        bus0.shift
                    } else {
                        0
                    }),
                    bus.transfer_count == bus0.transfer_count + pending_exchanges(self0) + i,
                    bus.sent@ == bus0.sent@ + pending_bytes(self0, bus0) + Seq::new(
                        i as nat,
                        |k: int| 0u8,
                    ),
                    forall|j: int| 0 <= j < i ==> words@[j] == 0,
                decreases words@.len() - i,
            {
                bus.load(0x00);
                self.needs_flush = true;
                self.flush(bus)?;
                proof {
                    assert(bus.sent@ =~= bus0.sent@ + pending_bytes(self0, bus0) + Seq::new(
                        (i + 1) as nat,
                        |k: int| 0u8,
                    ));
                }
                let captured = bus.capture();
                words[i] = captured;
                i = i + 1;
            }
        }
        Ok(())
    }

    /// Pair bytes over the common length — load the write byte, flush,
    /// capture into the read slot — then drain the longer buffer's tail
    /// one-sidedly: write-only sends the rest, read-only drives dummy
    /// zeroes. Whenever anything is to be exchanged, any prior loaded byte
    /// is clocked out first, never overwritten. On the loopback bus each
    /// paired read slot captures exactly the byte written opposite it, so
    /// equal-length buffers round-trip.
    pub fn transfer(
        &mut self,
        bus: &mut LoopbackBus,
        read_buf: &mut Vec<u8>,
        write_buf: &Vec<u8>,
    ) -> (r: Result<(), SpiError>)
        requires
            old(bus).transfer_count + old(read_buf)@.len() + write_buf@.len() + 1 <= u64::MAX,
        ensures
            r is Ok,
            final(read_buf)@.len() == old(read_buf)@.len(),
            forall|i: int|
                0 <= i < old(read_buf)@.len() && i < write_buf@.len() ==> final(read_buf)@[i]
                    == write_buf@[i],
            forall|i: int|
                write_buf@.len() <= i < old(read_buf)@.len() ==> final(read_buf)@[i] == 0,
            old(read_buf)@.len() == write_buf@.len() ==> final(read_buf)@ == write_buf@,
            write_buf@.len() > old(read_buf)@.len() ==> final(self).loaded() && final(bus).shift
                == write_buf@[write_buf@.len() - 1] && final(bus).transfer_count == old(bus).transfer_count + write_buf@.len() - 1 + pending_exchanges(*old(self))
                && final(bus).sent@ == old(bus).sent@ + pending_bytes(*old(self), *old(bus))
                + write_buf@.take(write_buf@.len() - 1),
            write_buf@.len() <= old(read_buf)@.len() && old(read_buf)@.len() > 0 ==> !final(self).loaded() && final(bus).transfer_count == old(bus).transfer_count + old(read_buf)@.len()
                + pending_exchanges(*old(self)) && final(bus).sent@ == old(bus).sent@
                + pending_bytes(*old(self), *old(bus)) + write_buf@ + Seq::new(
                (old(read_buf)@.len() - write_buf@.len()) as nat,
                |k: int| 0u8,
            ) && final(bus).shift == (
            if old(read_buf)@.len() > write_buf@.len() {
                0
            } else {
                write_buf@[write_buf@.len() - 1]
            }),
            write_buf@.len() == 0 && old(read_buf)@.len() == 0 ==> *final(self) == *old(self)
                && *final(bus) == *old(bus) && final(read_buf)@ == old(read_buf)@,
    {
        let ghost self0 = *self;
        let ghost bus0 = *bus;
        let read_write_len = if read_buf.len() < write_buf.len() {
            read_buf.len()
        } else {
            write_buf.len()
        };
        // drain any pending byte before anything is read or overwritten
        if read_buf.len() > 0 || write_buf.len() > 0 {
            self.flush(bus)?;
        }
        let ghost dbus = *bus;
        proof {
            if read_buf@.len() > 0 || write_buf@.len() > 0 {
                assert(dbus.sent@ =~= bus0.sent@ + pending_bytes(self0, bus0));
            }
        }
        if read_write_len > 0 {
            let mut i: usize = 0;
            while i < read_write_len
                invariant
                    read_write_len <= old(read_buf)@.len(),
                    read_write_len <= write_buf@.len(),
                    i <= read_write_len,
                    read_buf@.len() == old(read_buf)@.len(),
                    dbus.transfer_count + read_buf@.len() + write_buf@.len() <= u64::MAX,
                    !self.loaded(),
                    read_write_len > 0,
                    bus.shift == (if i == 0 {
                        dbus.shift
                    } else {
                        write_buf@[i - 1]
                    }),
                    bus.transfer_count == dbus.transfer_count + i,
                    bus.sent@ == dbus.sent@ + write_buf@.take(i as int),
                    forall|j: int| 0 <= j < i ==> read_buf@[j] == write_buf@[j],
                    forall|j: int| i <= j < read_buf@.len() ==> read_buf@[j] == old(read_buf)@[j],
                decreases read_write_len - i,
            {
                bus.load(write_buf[i]);
                self.needs_flush = true;
                self.flush(bus)?;
                proof {
                    assert(bus.sent@ =~= dbus.sent@ + write_buf@.take(i + 1));
                }
                let captured = bus.capture();
                read_buf[i] = captured;
                i = i + 1;
            }
        }
        if read_buf.len() > write_buf.len() {
            let ghost mid_bus = *bus;
            let mut j: usize = read_write_len;
            while j < read_buf.len()
                invariant
                    read_write_len <= j,
                    j <= read_buf@.len(),
                    read_buf@.len() == old(read_buf)@.len(),
                    read_write_len == write_buf@.len(),
                    read_buf@.len() > write_buf@.len(),
                    mid_bus.transfer_count + (read_buf@.len() - read_write_len) <= u64::MAX,
                    !self.loaded(),
                    bus.shift == (if j == read_write_len {
                        mid_bus.shift
                    } else {
                        0
                    }),
                    bus.transfer_count == mid_bus.transfer_count + (j - read_write_len),
                    bus.sent@ == mid_bus.sent@ + Seq::new(
                        (j - read_write_len) as nat,
                        |k: int| 0u8,
                    ),
                    forall|k: int| 0 <= k < read_write_len ==> read_buf@[k] == write_buf@[k],
                    forall|k: int| read_write_len <= k < j ==> read_buf@[k] == 0,
                decreases read_buf@.len() - j,
            {
                bus.load(0x00);
                self.needs_flush = true;
                self.flush(bus)?;
                proof {
                    assert(bus.sent@ =~= mid_bus.sent@ + Seq::new(
                        (j + 1 - read_write_len) as nat,
                        |k: int| 0u8,
                    ));
                }
                let captured = bus.capture();
                read_buf[j] = captured;
                j = j + 1;
            }
        } else {
            let ghost mid_self = *self;
            let ghost mid_bus = *bus;
            let mut j: usize = read_write_len;
            while j < write_buf.len()
                invariant
                    read_write_len <= j,
                    j <= write_buf@.len(),
                    read_buf@.len() == old(read_buf)@.len(),
                    read_write_len <= write_buf@.len(),
                    read_write_len == read_buf@.len() || read_write_len == write_buf@.len(),
                    mid_bus.transfer_count + (write_buf@.len() - read_write_len) <= u64::MAX,
                    read_write_len < write_buf@.len() ==> !mid_self.loaded(),
                    j == read_write_len ==> *self == mid_self && *bus == mid_bus,
                    j > read_write_len ==> self.loaded() && bus.shift == write_buf@[j - 1]
                        && bus.transfer_count == mid_bus.transfer_count + (j - read_write_len)
                        - 1 && bus.sent@ == mid_bus.sent@ + write_buf@.subrange(
                        read_write_len as int,
                        j - 1,
                    ),
                    forall|k: int| 0 <= k < read_write_len ==> read_buf@[k] == write_buf@[k],
                    forall|k: int|
                        read_write_len <= k < read_buf@.len() ==> read_buf@[k] == old(read_buf)@[k],
                decreases write_buf@.len() - j,
            {
                self.flush(bus)?;
                proof {
                    assert(bus.sent@ =~= mid_bus.sent@ + write_buf@.subrange(
                        read_write_len as int,
                        j as int,
                    ));
                }
                bus.load(write_buf[j]);
                self.needs_flush = true;
                j = j + 1;
            }
        }
        proof {
            let rl = old(read_buf)@.len() as int;
            let wl = write_buf@.len() as int;
            if rl == wl {
                assert(read_buf@ =~= write_buf@);
            }
            if wl == 0 && rl == 0 {
                assert(read_buf@ =~= old(read_buf)@);
            }
            if wl > rl {
                assert(bus.sent@ =~= bus0.sent@ + pending_bytes(self0, bus0) + write_buf@.take(
                    wl - 1,
                ));
            }
            if wl <= rl && rl > 0 {
                assert(bus.sent@ =~= bus0.sent@ + pending_bytes(self0, bus0) + write_buf@
                    + Seq::new((rl - wl) as nat, |k: int| 0u8));
            }
        }
        Ok(())
    }

    /// Exchange every byte in place, draining any prior loaded byte first.
    /// On the loopback bus each byte returns unchanged, so the buffer is
    /// left exactly as it was.
    pub fn transfer_in_place(&mut self, bus: &mut LoopbackBus, words: &mut Vec<u8>) -> (r: Result<
        (),
        SpiError,
    >)
        requires
            old(bus).transfer_count + old(words)@.len() + 1 <= u64::MAX,
        ensures
            r is Ok,
            final(words)@ == old(words)@,
            old(words)@.len() == 0 ==> *final(self) == *old(self) && *final(bus) == *old(bus),
            old(words)@.len() > 0 ==> !final(self).loaded() && final(bus).shift == old(words)@[old(
                words,
            )@.len() - 1] && final(bus).transfer_count == old(bus).transfer_count
                + old(words)@.len() + pending_exchanges(*old(self)) && final(bus).sent@
                == old(bus).sent@ + pending_bytes(*old(self), *old(bus)) + old(words)@,
    {
        let ghost self0 = *self;
        let ghost bus0 = *bus;
        if words.len() > 0 {
            self.flush(bus)?;
            proof {
                assert(bus.sent@ =~= bus0.sent@ + pending_bytes(self0, bus0) + old(
                    words,
                )@.take(0));
            }
            let mut i: usize = 0;
            while i < words.len()
                invariant
                    i <= words@.len(),
                    words@.len() == old(words)@.len(),
                    words@.len() > 0,
                    bus0.transfer_count + words@.len() + 1 <= u64::MAX,
                    !self.loaded(),
                    bus.shift == (if i == 0 {
                        bus0.shift
                    } else {
                        old(words)@[i - 1]
                    }),
                    bus.transfer_count == bus0.transfer_count + pending_exchanges(self0) + i,
                    bus.sent@ == bus0.sent@ + pending_bytes(self0, bus0) + old(words)@.take(
                        i as int,
                    ),
                    forall|j: int| 0 <= j < words@.len() ==> words@[j] == old(words)@[j],
                decreases words@.len() - i,
            {
                bus.load(words[i]);
                self.needs_flush = true;
                self.flush(bus)?;
                proof {
                    assert(bus.sent@ =~= bus0.sent@ + pending_bytes(self0, bus0) + old(
                        words,
                    )@.take(i + 1));
                }
                let captured = bus.capture();
                words[i] = captured;
                i = i + 1;
            }
        }
        proof {
            assert(words@ =~= old(words)@);
            if old(words)@.len() > 0 {
                assert(old(words)@.take(old(words)@.len() as int) =~= old(words)@);
            }
        }
        Ok(())
    }
}

} // verus!
