//! The audio unit as the bus sees it: the register files of its channels,
//! and a record of which channels were written to.

pub mod registers;
pub mod sounds;

use vstd::prelude::*;
use crate::apu::registers::{NoiseRegister, PulseRegister, TriangleRegister};

verus! {

/// The channels written to since the record was last taken.
#[derive(Clone, Copy, Debug, PartialEq, Eq, Structural)]
pub struct VoiceUpdates {
    pub square1: bool,
    pub square2: bool,
    pub triangle: bool,
    pub noise: bool,
}

#[derive(Clone, Copy, Debug, PartialEq, Eq, Structural)]
pub struct NesAPU {
    pub square1: PulseRegister,
    pub square2: PulseRegister,
    pub triangle: TriangleRegister,
    pub noise: NoiseRegister,
    pub updates: VoiceUpdates,
}

impl VoiceUpdates {
    pub open spec fn none() -> VoiceUpdates {
        VoiceUpdates { square1: false, square2: false, triangle: false, noise: false }
    }
}

impl NesAPU {
    pub open spec fn wf(&self) -> bool {
        &&& self.square1.wf()
        &&& self.square2.wf()
        &&& self.triangle.wf()
        &&& self.noise.wf()
    }

    pub open spec fn spec_new() -> NesAPU {
        NesAPU {
            square1: PulseRegister::spec_new(),
            square2: PulseRegister::spec_new(),
            triangle: TriangleRegister::spec_new(),
            noise: NoiseRegister::spec_new(),
            updates: VoiceUpdates::none(),
        }
    }

    /// A write to a register of the first pulse channel, 0x4000 to 0x4003.
    pub open spec fn spec_write_square1(self, addr: u16, data: u8) -> NesAPU {
        NesAPU {
            square1: self.square1.spec_write(addr, data),
            updates: VoiceUpdates { square1: true, ..self.updates },
            ..self
        }
    }

    /// A write to a register of the second pulse channel, 0x4004 to 0x4007.
    pub open spec fn spec_write_square2(self, addr: u16, data: u8) -> NesAPU {
        NesAPU {
            square2: self.square2.spec_write((addr - 0x0004) as u16, data),
            updates: VoiceUpdates { square2: true, ..self.updates },
            ..self
        }
    }

    /// A write to a register of the triangle channel, 0x4008 to 0x400B.
    pub open spec fn spec_write_triangle(self, addr: u16, data: u8) -> NesAPU {
        NesAPU {
            triangle: self.triangle.spec_write(addr, data),
            updates: VoiceUpdates { triangle: true, ..self.updates },
            ..self
        }
    }

    /// A write to a register of the noise channel, 0x400C to 0x400F.
    pub open spec fn spec_write_noise(self, addr: u16, data: u8) -> NesAPU {
        NesAPU {
            noise: self.noise.spec_write(addr, data),
            updates: VoiceUpdates { noise: true, ..self.updates },
            ..self
        }
    }

    /// A write to any address of the audio unit. The addresses from 0x4010
    /// on belong to parts that keep no registers here.
    pub open spec fn spec_write(self, addr: u16, data: u8) -> NesAPU {
        if 0x4000 <= addr <= 0x4003 {
            self.spec_write_square1(addr, data)
        } else if 0x4004 <= addr <= 0x4007 {
            self.spec_write_square2(addr, data)
        } else if 0x4008 <= addr <= 0x400B {
            self.spec_write_triangle(addr, data)
        } else if 0x400C <= addr <= 0x400F {
            self.spec_write_noise(addr, data)
        } else {
            self
        }
    }

    /// Tells whether the fields of every channel are within their widths.
    pub fn well_formed(&self) -> (r: bool)
        ensures
            r == self.wf(),
    {
        self.square1.well_formed() && self.square2.well_formed() && self.triangle.well_formed()
            && self.noise.well_formed()
    }

    pub fn new() -> (r: Self)
        ensures
            r == Self::spec_new(),
            r.wf(),
    {
        NesAPU {
            square1: PulseRegister::new(),
            square2: PulseRegister::new(),
            triangle: TriangleRegister::new(),
            noise: NoiseRegister::new(),
            updates: VoiceUpdates { square1: false, square2: false, triangle: false, noise: false },
        }
    }

    pub fn write_square1(&mut self, addr: u16, data: u8)
        requires
            0x4000 <= addr <= 0x4003,
            old(self).wf(),
        ensures
            *final(self) == old(self).spec_write_square1(addr, data),
            final(self).wf(),
    {
        self.square1.write(addr, data);
        self.updates.square1 = true;
    }

    pub fn write_square2(&mut self, addr: u16, data: u8)
        requires
            0x4004 <= addr <= 0x4007,
            old(self).wf(),
        ensures
            *final(self) == old(self).spec_write_square2(addr, data),
            final(self).wf(),
    {
        self.square2.write(addr - 0x0004, data);
        self.updates.square2 = true;
    }

    pub fn write_triangle(&mut self, addr: u16, data: u8)
        requires
            0x4008 <= addr <= 0x400B,
            old(self).wf(),
        ensures
            *final(self) == old(self).spec_write_triangle(addr, data),
            final(self).wf(),
    {
        self.triangle.write(addr, data);
        self.updates.triangle = true;
    }

    pub fn write_noise(&mut self, addr: u16, data: u8)
        requires
            0x400C <= addr <= 0x400F,
            old(self).wf(),
        ensures
            *final(self) == old(self).spec_write_noise(addr, data),
            final(self).wf(),
    {
        self.noise.write(addr, data);
        self.updates.noise = true;
    }

    /// Hands out the record of the channels written to, and clears it.
    pub fn take_updates(&mut self) -> (r: VoiceUpdates)
        ensures
            r == old(self).updates,
            *final(self) == (NesAPU { updates: VoiceUpdates::none(), ..*old(self) }),
    {
        let r = self.updates;
        self.updates = VoiceUpdates { square1: false, square2: false, triangle: false, noise: false };
        r
    }
}

} // verus!
