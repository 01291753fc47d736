//! Cycle-accurate busy-wait primitives.
//!
//! The target runs every delay as a closed countdown loop with a known cost
//! per iteration. The loops are reproduced here against a simulated core
//! clock, so the cycle arithmetic that the pulse timing depends on is stated
//! and checked rather than hand-counted.

use vstd::prelude::*;

verus! {

/// Simulated core clock. `elapsed` counts executed CPU cycles.
pub struct CycleClock {
    pub elapsed: u64,
}

impl CycleClock {
    pub fn new() -> (c: CycleClock)
        ensures
            c.elapsed == 0,
    {
        CycleClock { elapsed: 0 }
    }

    /// Account for `cycles` cycles of straight-line execution.
    fn advance(&mut self, cycles: u64)
        requires
            old(self).elapsed + cycles <= u64::MAX,
        ensures
            final(self).elapsed == old(self).elapsed + cycles,
    {
        self.elapsed = self.elapsed + cycles;
    }
}

/// Cycles burned by the short delay loop when started with `cycles`:
/// the counter is decremented by two per pass (one subtract, one taken
/// branch, three cycles) until it borrows, and the final pass falls
/// through the branch (two cycles).
pub open spec fn short_delay_cost(cycles: u8) -> int {
    3 * (cycles as int / 2) + 2
}

/// The short delay loop waits at least as many cycles as requested.
pub proof fn lemma_short_delay_covers_request(cycles: u8)
    ensures
        short_delay_cost(cycles) >= cycles,
{
}

/// Busy-wait at least `cycles` core clock cycles (counter granularity: two).
///
/// Mirrors the two-instruction countdown loop the target executes; the cost
/// charged to the clock is exactly the loop's cycle count.
pub fn delay_cycles_short(clock: &mut CycleClock, cycles: u8)
    requires
        old(clock).elapsed + short_delay_cost(cycles) <= u64::MAX,
    ensures
        final(clock).elapsed == old(clock).elapsed + short_delay_cost(cycles),
{
    let ghost start: int = clock.elapsed as int;
    let mut remaining: u8 = cycles;
    while remaining >= 2
        invariant
            remaining <= cycles,
            remaining % 2 == cycles % 2,
            clock.elapsed == start + 3 * ((cycles - remaining) as int / 2),
            clock.elapsed + 3 * (remaining as int / 2) + 2 <= u64::MAX,
        decreases remaining,
    {
        clock.advance(3);
        remaining = remaining - 2;
    }
    clock.advance(2);
}

/// Cycles burned by the long delay loop when started with `cycles`: four
/// cycles per pass, one pass per four requested cycles, plus a final pass.
pub open spec fn long_delay_cost(cycles: u32) -> int {
    4 * (cycles as int / 4) + 4
}

/// The long delay loop waits at least as many cycles as requested.
pub proof fn lemma_long_delay_covers_request(cycles: u32)
    ensures
        long_delay_cost(cycles) >= cycles,
{
}

/// Busy-wait at least `cycles` core clock cycles (counter granularity: four).
pub fn delay_cycles(clock: &mut CycleClock, cycles: u32)
    requires
        old(clock).elapsed + long_delay_cost(cycles) <= u64::MAX,
    ensures
        final(clock).elapsed == old(clock).elapsed + long_delay_cost(cycles),
{
    let ghost start: int = clock.elapsed as int;
    let mut remaining: u32 = cycles;
    while remaining >= 4
        invariant
            remaining <= cycles,
            remaining % 4 == cycles % 4,
            clock.elapsed == start + 4 * ((cycles - remaining) as int / 4),
            clock.elapsed + 4 * (remaining as int / 4) + 4 <= u64::MAX,
        decreases remaining,
    {
        clock.advance(4);
        remaining = remaining - 4;
    }
    clock.advance(4);
}

} // verus!
