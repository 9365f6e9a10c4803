//! The pseudo-random bit source of the noise channel.

use vstd::prelude::*;

verus! {

/// A 15-bit linear-feedback shift register. Each step shifts right by one
/// and feeds back, at bit 14, bit 0 xor bit 1 (long sequence) or bit 0 xor
/// bit 6 (short sequence) of the value before the shift.
#[derive(Clone, Copy, Debug, PartialEq, Eq, Structural)]
pub struct NoiseRandom {
    pub is_long: bool,
    pub rand_reg: u16,
}

impl NoiseRandom {
    /// The feedback bit of the next step.
    pub open spec fn spec_feedback(self) -> u16 {
        if self.is_long {
            (self.rand_reg & 0x0001) ^ ((self.rand_reg >> 1) & 0x0001)
        } else {
            (self.rand_reg & 0x0001) ^ ((self.rand_reg >> 6) & 0x0001)
        }
    }

    /// The register after one step.
    pub open spec fn spec_next(self) -> NoiseRandom {
        NoiseRandom {
            rand_reg: ((self.rand_reg >> 1) & 0b11_1111_1111_1111) | (self.spec_feedback() << 14),
            ..self
        }
    }

    pub fn new(is_long: bool) -> (r: Self)
        ensures
            r == (NoiseRandom { is_long, rand_reg: 0x01 }),
    {
        NoiseRandom { is_long, rand_reg: 0x01 }
    }

    /// Steps the register and reports its new lowest bit.
    pub fn next(&mut self) -> (r: bool)
        ensures
            *final(self) == old(self).spec_next(),
            r == (final(self).rand_reg & 0x0001 != 0),
    {
        let bit = if self.is_long {
            (self.rand_reg & 0x0001) ^ ((self.rand_reg >> 1) & 0x0001)
        } else {
            (self.rand_reg & 0x0001) ^ ((self.rand_reg >> 6) & 0x0001)
        };
        self.rand_reg >>= 1;
        self.rand_reg = (self.rand_reg & 0b11_1111_1111_1111) | bit << 14;
        self.rand_reg & 0x0001 != 0
    }
}

} // verus!
