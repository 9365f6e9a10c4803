//! The registers of the triangle channel.

use vstd::prelude::*;

verus! {

#[derive(Clone, Copy, Debug, PartialEq, Eq, Structural)]
pub struct TriangleRegister {
    pub is_length_counter_halt: bool,
    pub counter_reload_value: u8,
    pub timer: u16,
    pub length_counter_load: u8,
}

impl TriangleRegister {
    /// The fields are within the widths of their bit fields.
    pub open spec fn wf(&self) -> bool {
        &&& self.counter_reload_value < 128
        &&& self.timer < 0x800
        &&& self.length_counter_load < 32
    }

    pub open spec fn spec_new() -> TriangleRegister {
        TriangleRegister {
            is_length_counter_halt: true,
            counter_reload_value: 0,
            timer: 0,
            length_counter_load: 0,
        }
    }

    /// The channel after a write of `data` to `addr`.
    ///
    /// 0x4008 holds the length-counter halt (bit 7, stored inverted) and the
    /// linear counter reload value (bits 0-6); 0x4009 is unused; 0x400A
    /// holds the low eight bits of the timer; 0x400B holds the
    /// length-counter load (bits 3-7) and the high three bits of the timer.
    pub open spec fn spec_write(self, addr: u16, data: u8) -> TriangleRegister {
        if addr == 0x4008 {
            TriangleRegister {
                is_length_counter_halt: data < 128,
                counter_reload_value: data % 128,
                ..self
            }
        } else if addr == 0x4009 {
            self
        } else if addr == 0x400A {
            TriangleRegister { timer: ((self.timer / 256) * 256 + data) as u16, ..self }
        } else {
            TriangleRegister {
                length_counter_load: data / 8,
                timer: (self.timer % 256 + (data % 8) * 256) as u16,
                ..self
            }
        }
    }

    /// CPU cycles in one period of the wave.
    pub open spec fn spec_period_cycles(&self) -> u32 {
        (32 * (self.timer + 1)) as u32
    }

    /// Tells whether the fields are within the widths of their bit fields.
    pub fn well_formed(&self) -> (r: bool)
        ensures
            r == self.wf(),
    {
        self.counter_reload_value < 128 && self.timer < 0x800 && self.length_counter_load < 32
    }

    pub fn new() -> (r: Self)
        ensures
            r == Self::spec_new(),
            r.wf(),
    {
        TriangleRegister {
            is_length_counter_halt: true,
            counter_reload_value: 0,
            timer: 0,
            length_counter_load: 0,
        }
    }

    pub fn write(&mut self, addr: u16, data: u8)
        requires
            0x4008 <= addr <= 0x400B,
            old(self).wf(),
        ensures
            *final(self) == old(self).spec_write(addr, data),
            final(self).wf(),
    {
        if addr == 0x4008 {
            self.is_length_counter_halt = data < 128;
            self.counter_reload_value = data % 128;
        } else if addr == 0x4009 {
        } else if addr == 0x400A {
            self.timer = (self.timer / 256) * 256 + data as u16;
        } else {
            self.length_counter_load = data / 8;
            self.timer = self.timer % 256 + ((data % 8) as u16) * 256;
        }
    }

    pub fn period_cycles(&self) -> (r: u32)
        ensures
            r == self.spec_period_cycles(),
            r > 0,
    {
        32 * (self.timer as u32 + 1)
    }
}

} // verus!
