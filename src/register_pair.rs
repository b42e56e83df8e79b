use vstd::prelude::*;

verus! {

/// A 16-bit register addressable as two independent bytes.
#[derive(Clone, Copy, Debug, PartialEq, Eq, Structural)]
pub struct RegisterPair {
    pub hi: u8,
    pub lo: u8,
}

impl RegisterPair {
    /// The combined value: `hi` in the upper byte, `lo` in the lower one.
    pub open spec fn value(self) -> u16 {
        (self.hi as int * 256 + self.lo as int) as u16
    }

    /// The pair whose combined value is `value`.
    pub open spec fn from_value(value: u16) -> RegisterPair {
        RegisterPair { hi: (value / 256) as u8, lo: (value % 256) as u8 }
    }

    pub fn new(value: u16) -> (r: RegisterPair)
        ensures
            r == RegisterPair::from_value(value),
    {
        let mut pair = RegisterPair { hi: 0, lo: 0 };
        pair.set_pair(value);
        pair
    }

    pub fn get_pair(&self) -> (r: u16)
        ensures
            r == self.value(),
    {
        let hi = self.hi;
        let lo = self.lo;
        assert(((hi as u16) << 8u16) | (lo as u16) == hi as int * 256 + lo as int) by (bit_vector);
        ((self.hi as u16) << 8) | (self.lo as u16)
    }

    pub fn set_pair(&mut self, value: u16)
        ensures
            *final(self) == RegisterPair::from_value(value),
    {
        assert((value >> 8u16) as u8 == value / 256 && (value & 0xFFu16) as u8 == value % 256)
            by (bit_vector);
        self.hi = (value >> 8) as u8;
        self.lo = (value & 0xFF) as u8;
    }
}

/// Writing a combined value and reading it back gives the same value.
pub proof fn lemma_pair_round_trip(value: u16)
    ensures
        RegisterPair::from_value(value).value() == value,
{
}

} // verus!
