//! A square channel kept as the four raw bytes last written to it.

use vstd::prelude::*;

verus! {

#[derive(Clone, Copy, Debug, PartialEq, Eq, Structural)]
pub struct SquareRegister {
    pub tone_volume: u8,
    pub sweep: u8,
    pub freq_lower: u8,
    pub freq_high_keyon: u8,
}

impl SquareRegister {
    /// The channel after a write of `data` to register `addr - 0x4000`.
    pub open spec fn spec_write(self, addr: u16, data: u8) -> SquareRegister {
        if addr == 0x4000 {
            SquareRegister { tone_volume: data, ..self }
        } else if addr == 0x4001 {
            SquareRegister { sweep: data, ..self }
        } else if addr == 0x4002 {
            SquareRegister { freq_lower: data, ..self }
        } else {
            SquareRegister { freq_high_keyon: data, ..self }
        }
    }

    pub fn new() -> (r: Self)
        ensures
            r == (SquareRegister { tone_volume: 0, sweep: 0, freq_lower: 0, freq_high_keyon: 0 }),
    {
        SquareRegister { tone_volume: 0x00, sweep: 0x00, freq_lower: 0x00, freq_high_keyon: 0x00 }
    }

    pub fn write(&mut self, addr: u16, data: u8)
        requires
            0x4000 <= addr <= 0x4003,
        ensures
            *final(self) == old(self).spec_write(addr, data),
    {
        if addr == 0x4000 {
            self.tone_volume = data;
        } else if addr == 0x4001 {
            self.sweep = data;
        } else if addr == 0x4002 {
            self.freq_lower = data;
        } else {
            self.freq_high_keyon = data;
        }
    }
}

} // verus!
