//! The address space as a capability: byte reads and writes, and the
//! little-endian 16-bit accesses built from them.

use vstd::prelude::*;

verus! {

/// Something that can be read and written byte by byte at 16-bit addresses.
///
/// A read may change the state behind the address space, so both operations
/// are described as functions of a mathematical state: what a read returns
/// and leaves behind, and what a write leaves behind. An implementation may
/// forbid some accesses; `spec_can_read` and `spec_can_write` tell which
/// are allowed.
pub trait Mem: Sized {
    /// The mathematical state behind the address space.
    type State;

    spec fn mem_state(&self) -> Self::State;

    /// The states that the operations are defined on, and keep to.
    spec fn mem_wf(s: Self::State) -> bool;

    spec fn spec_can_read(s: Self::State, addr: u16) -> bool;

    /// The byte read at `addr`, and the state after the read.
    spec fn spec_read(s: Self::State, addr: u16) -> (u8, Self::State);

    spec fn spec_can_write(s: Self::State, addr: u16, data: u8) -> bool;

    /// The state after `data` was written to `addr`.
    spec fn spec_write(s: Self::State, addr: u16, data: u8) -> Self::State;

    fn mem_read(&mut self, addr: u16) -> (data: u8)
        requires
            Self::mem_wf(old(self).mem_state()),
            Self::spec_can_read(old(self).mem_state(), addr),
        ensures
            data == Self::spec_read(old(self).mem_state(), addr).0,
            final(self).mem_state() == Self::spec_read(old(self).mem_state(), addr).1,
            Self::mem_wf(final(self).mem_state()),
    ;

    fn mem_write(&mut self, addr: u16, data: u8)
        requires
            Self::mem_wf(old(self).mem_state()),
            Self::spec_can_write(old(self).mem_state(), addr, data),
        ensures
            final(self).mem_state() == Self::spec_write(old(self).mem_state(), addr, data),
            Self::mem_wf(final(self).mem_state()),
    ;

    /// Reads the low byte at `pos` and the high byte at the address after
    /// it (which wraps from 0xFFFF to 0).
    fn mem_read_u16(&mut self, pos: u16) -> (value: u16)
        requires
            Self::mem_wf(old(self).mem_state()),
            Self::spec_can_read(old(self).mem_state(), pos),
            Self::spec_can_read(
                Self::spec_read(old(self).mem_state(), pos).1,
                pos.wrapping_add(1),
            ),
        ensures
            ({
                let low = Self::spec_read(old(self).mem_state(), pos);
                let high = Self::spec_read(low.1, pos.wrapping_add(1));
                value == spec_word(low.0, high.0) && final(self).mem_state() == high.1
            }),
            Self::mem_wf(final(self).mem_state()),
    {
        let low = self.mem_read(pos) as u16;
        let high = self.mem_read(pos.wrapping_add(1)) as u16;
        high * 256 + low
    }

    /// Writes the low byte of `data` at `pos` and its high byte at the
    /// address after it (which wraps from 0xFFFF to 0).
    fn mem_write_u16(&mut self, pos: u16, data: u16)
        requires
            Self::mem_wf(old(self).mem_state()),
            Self::spec_can_write(old(self).mem_state(), pos, spec_low_byte(data)),
            Self::spec_can_write(
                Self::spec_write(old(self).mem_state(), pos, spec_low_byte(data)),
                pos.wrapping_add(1),
                spec_high_byte(data),
            ),
        ensures
            final(self).mem_state() == Self::spec_write(
                Self::spec_write(old(self).mem_state(), pos, spec_low_byte(data)),
                pos.wrapping_add(1),
                spec_high_byte(data),
            ),
            Self::mem_wf(final(self).mem_state()),
    {
        let high = (data / 256) as u8;
        let low = (data % 256) as u8;
        self.mem_write(pos, low);
        self.mem_write(pos.wrapping_add(1), high)
    }
}

/// The 16-bit value with the given low and high bytes.
pub open spec fn spec_word(low: u8, high: u8) -> u16 {
    (high * 256 + low) as u16
}

/// The low byte of a 16-bit value.
pub open spec fn spec_low_byte(word: u16) -> u8 {
    (word % 256) as u8
}

/// The high byte of a 16-bit value.
pub open spec fn spec_high_byte(word: u16) -> u8 {
    (word / 256) as u8
}

/// A 16-bit value is made of its own low and high bytes.
pub proof fn lemma_word_of_bytes(word: u16)
    ensures
        spec_word(spec_low_byte(word), spec_high_byte(word)) == word,
{
}

} // verus!
