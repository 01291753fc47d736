//! Packed option set carried by control packets for the LED strip.

use vstd::prelude::*;

verus! {

/// One selectable behaviour of the strip.
#[derive(Clone, Copy, PartialEq, Eq, Structural)]
pub enum LEDStripOption {
    Enabled,
    Twinkle,
    HueCycle,
}

/// Bit assigned to an option in the packed byte.
pub open spec fn option_mask(option: LEDStripOption) -> u8 {
    match option {
        LEDStripOption::Enabled => 1,
        LEDStripOption::Twinkle => 2,
        LEDStripOption::HueCycle => 4,
    }
}

/// Facts about setting and clearing one option bit in the packed byte.
proof fn lemma_mask_ops(x: u8, m: u8, n: u8)
    requires
        m == 1 || m == 2 || m == 4,
        n == 1 || n == 2 || n == 4,
    ensures
        m & m != 0,
        (x | m) & m != 0,
        (x & !m) & m == 0,
        m != n ==> (x | m) & n == x & n,
        m != n ==> (x & !m) & n == x & n,
        m != n ==> m & n == 0,
{
    assert(m & m != 0 && (x | m) & m != 0 && (x & !m) & m == 0 && (m != n ==> (x | m) & n == x & n)
        && (m != n ==> (x & !m) & n == x & n) && (m != n ==> m & n == 0)) by (bit_vector)
        requires
            (m == 1 || m == 2 || m == 4) && (n == 1 || n == 2 || n == 4),
    ;
}

/// Set of options encoded by the packed byte `bits`.
pub open spec fn spec_contains(bits: u8, option: LEDStripOption) -> bool {
    bits & option_mask(option) != 0
}

/// A set of [`LEDStripOption`]s packed into one byte, one bit per option.
#[derive(Clone, Copy)]
pub struct LEDStripState(u8);

impl LEDStripState {
    /// The set with no option in it.
    pub fn none() -> (s: Self)
        ensures
            s.bits() == 0,
            forall|o: LEDStripOption| !s.has(o),
    {
        let s = Self(0);
        proof {
            assert forall|o: LEDStripOption| !s.has(o) by {
                let m = option_mask(o);
                assert(0u8 & m == 0) by (bit_vector);
            }
        }
        s
    }

    /// The set with every option in it.
    pub fn all() -> (s: Self)
        ensures
            s.bits() == 0b111,
            forall|o: LEDStripOption| s.has(o),
    {
        let s = Self(0b111);
        proof {
            assert forall|o: LEDStripOption| s.has(o) by {
                let m = option_mask(o);
                assert((m == 1 || m == 2 || m == 4) ==> 0b111u8 & m != 0) by (bit_vector);
            }
        }
        s
    }

    /// The packed byte.
    pub closed spec fn bits(&self) -> u8 {
        self.0
    }

    /// Whether the set holds `option`.
    pub open spec fn has(&self, option: LEDStripOption) -> bool {
        spec_contains(self.bits(), option)
    }

    /// Reinterpret a packed byte as an option set.
    pub fn from(packed: u8) -> (s: Self)
        ensures
            s.bits() == packed,
    {
        Self(packed)
    }

    /// The set holding exactly `direction`.
    pub fn single(direction: LEDStripOption) -> (s: Self)
        ensures
            s.bits() == option_mask(direction),
            s.has(direction),
            forall|o: LEDStripOption| o != direction ==> !s.has(o),
    {
        let s = Self(mask_of(direction));
        proof {
            assert forall|o: LEDStripOption| o != direction implies !s.has(o) by {
                lemma_mask_ops(0, option_mask(direction), option_mask(o));
            }
            lemma_mask_ops(0, option_mask(direction), option_mask(direction));
        }
        s
    }

    /// Insert `dir`; every other option keeps its membership.
    pub fn add(&mut self, dir: LEDStripOption)
        ensures
            final(self).bits() == old(self).bits() | option_mask(dir),
            final(self).has(dir),
            forall|o: LEDStripOption| o != dir ==> final(self).has(o) == old(self).has(o),
    {
        self.0 = self.0 | mask_of(dir);
        proof {
            assert forall|o: LEDStripOption| o != dir implies self.has(o) == old(self).has(o) by {
                lemma_mask_ops(old(self).bits(), option_mask(dir), option_mask(o));
            }
            lemma_mask_ops(old(self).bits(), option_mask(dir), option_mask(dir));
        }
    }

    /// Union with `set`: an option is in the result exactly when it was in
    /// either operand.
    pub fn add_all(&mut self, set: LEDStripState)
        ensures
            final(self).bits() == old(self).bits() | set.bits(),
            forall|o: LEDStripOption|
                #[trigger] final(self).has(o) == (old(self).has(o) || set.has(o)),
    {
        self.0 = self.0 | set.0;
        proof {
            assert forall|o: LEDStripOption|
                #[trigger] self.has(o) == (old(self).has(o) || set.has(o)) by {
                let m = option_mask(o);
                let x = old(self).bits();
                let y = set.bits();
                assert((x | y) & m != 0 <==> (x & m != 0 || y & m != 0)) by (bit_vector);
            }
        }
    }

    /// Remove `dir`; every other option keeps its membership.
    pub fn remove(&mut self, dir: LEDStripOption)
        ensures
            final(self).bits() == old(self).bits() & !option_mask(dir),
            !final(self).has(dir),
            forall|o: LEDStripOption| o != dir ==> final(self).has(o) == old(self).has(o),
    {
        self.0 = self.0 & !mask_of(dir);
        proof {
            assert forall|o: LEDStripOption| o != dir implies self.has(o) == old(self).has(o) by {
                lemma_mask_ops(old(self).bits(), option_mask(dir), option_mask(o));
            }
            lemma_mask_ops(old(self).bits(), option_mask(dir), option_mask(dir));
        }
    }

    /// Whether the set holds `dir`.
    pub fn contains(&self, dir: LEDStripOption) -> (r: bool)
        ensures
            r == self.has(dir),
    {
        (self.0 & mask_of(dir)) != 0
    }

    /// Whether no option is set (and no stray bit either).
    pub fn is_empty(&self) -> (r: bool)
        ensures
            r == (self.bits() == 0),
            r ==> forall|o: LEDStripOption| !self.has(o),
    {
        let r = self.0 == 0;
        proof {
            if r {
                assert forall|o: LEDStripOption| !self.has(o) by {
                    let m = option_mask(o);
                    assert(0u8 & m == 0) by (bit_vector);
                }
            }
        }
        r
    }
}

/// Executable counterpart of [`option_mask`].
fn mask_of(option: LEDStripOption) -> (m: u8)
    ensures
        m == option_mask(option),
{
    match option {
        LEDStripOption::Enabled => 1,
        LEDStripOption::Twinkle => 2,
        LEDStripOption::HueCycle => 4,
    }
}

} // verus!
