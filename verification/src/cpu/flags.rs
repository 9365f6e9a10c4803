//! The processor status register.

use vstd::prelude::*;
use crate::bitfield;

verus! {

// 7  bit  0
// ---- ----
// NV2B DIZC
// |||| ||||
// |||| |||+- Carry
// |||| ||+-- Zero
// |||| |+--- Interrupt disable
// |||| +---- Decimal mode (stored, without effect on arithmetic)
// |||+------ Break
// ||+------- Break2 (the bit that is always pushed as 1)
// |+-------- Overflow
// +--------- Negative
pub const CARRY: u8 = 0b0000_0001;

pub const ZERO: u8 = 0b0000_0010;

pub const INTERRUPT_DISABLE: u8 = 0b0000_0100;

pub const DECIMAL_MODE: u8 = 0b0000_1000;

pub const BREAK: u8 = 0b0001_0000;

pub const BREAK2: u8 = 0b0010_0000;

pub const OVERFLOW: u8 = 0b0100_0000;

pub const NEGATIV: u8 = 0b1000_0000;

#[derive(Clone, Copy, Debug, PartialEq, Eq, Structural)]
pub struct CpuFlags {
    pub bits: u8,
}

impl CpuFlags {
    pub open spec fn spec_contains(self, flag: u8) -> bool {
        bitfield::spec_contains(self.bits, flag)
    }

    /// The register with `flag` set (`on`) or cleared.
    pub open spec fn spec_with(self, flag: u8, on: bool) -> CpuFlags {
        CpuFlags { bits: bitfield::spec_put(self.bits, flag, on) }
    }

    /// The register after an instruction produced `result`: Zero tells
    /// whether the result is 0, Negative is its bit 7.
    pub open spec fn spec_with_zero_n_negative(self, result: u8) -> CpuFlags {
        self.spec_with(ZERO, result == 0).spec_with(NEGATIV, result & 0b1000_0000 != 0)
    }

    /// The register as it is pushed on the stack: Break and Break2 set.
    pub open spec fn spec_pushed(self) -> u8 {
        self.spec_with(BREAK, true).spec_with(BREAK2, true).bits
    }

    /// The register as it is pulled from the stack: Break cleared, Break2
    /// set.
    pub open spec fn spec_pulled(bits: u8) -> CpuFlags {
        CpuFlags { bits }.spec_with(BREAK, false).spec_with(BREAK2, true)
    }

    pub fn from_bits_truncate(bits: u8) -> (r: CpuFlags)
        ensures
            r.bits == bits,
    {
        CpuFlags { bits }
    }

    pub fn bits(&self) -> (r: u8)
        ensures
            r == self.bits,
    {
        self.bits
    }

    pub fn contains(&self, flag: u8) -> (r: bool)
        ensures
            r == self.spec_contains(flag),
    {
        bitfield::contains(self.bits, flag)
    }

    pub fn insert(&mut self, flag: u8)
        ensures
            *final(self) == old(self).spec_with(flag, true),
    {
        self.bits = bitfield::put(self.bits, flag, true);
    }

    pub fn remove(&mut self, flag: u8)
        ensures
            *final(self) == old(self).spec_with(flag, false),
    {
        self.bits = bitfield::put(self.bits, flag, false);
    }

    pub fn set(&mut self, flag: u8, on: bool)
        ensures
            *final(self) == old(self).spec_with(flag, on),
    {
        self.bits = bitfield::put(self.bits, flag, on);
    }

    /// The register with `flag` set (`on`) or cleared.
    pub fn with(self, flag: u8, on: bool) -> (r: CpuFlags)
        ensures
            r == self.spec_with(flag, on),
    {
        CpuFlags { bits: bitfield::put(self.bits, flag, on) }
    }

    pub fn with_zero_n_negative(self, result: u8) -> (r: CpuFlags)
        ensures
            r == self.spec_with_zero_n_negative(result),
    {
        self.with(ZERO, result == 0).with(NEGATIV, result & 0b1000_0000 != 0)
    }

    pub fn pushed(self) -> (r: u8)
        ensures
            r == self.spec_pushed(),
    {
        self.with(BREAK, true).with(BREAK2, true).bits
    }

    pub fn pulled(bits: u8) -> (r: CpuFlags)
        ensures
            r == Self::spec_pulled(bits),
    {
        CpuFlags { bits }.with(BREAK, false).with(BREAK2, true)
    }
}

} // verus!
