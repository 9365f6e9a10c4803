//! The registers of the noise channel.

use vstd::prelude::*;

verus! {

#[derive(Clone, Copy, Debug, PartialEq, Eq, Structural)]
pub struct NoiseRegister {
    pub is_length_counter_halt: bool,
    pub is_constant_volume: bool,
    pub volume: u8,
    pub is_long_period: bool,
    pub period: u8,
    pub length_counter_load: u8,
}

/// CPU cycles between two steps of the noise generator, for each of the
/// sixteen period settings.
pub open spec fn spec_noise_period_cycles(period: u8) -> u16 {
    if period == 0 {
        0x002
    } else if period == 1 {
        0x004
    } else if period == 2 {
        0x008
    } else if period == 3 {
        0x010
    } else if period == 4 {
        0x020
    } else if period == 5 {
        0x030
    } else if period == 6 {
        0x040
    } else if period == 7 {
        0x050
    } else if period == 8 {
        0x065
    } else if period == 9 {
        0x07f
    } else if period == 10 {
        0x0be
    } else if period == 11 {
        0x0fe
    } else if period == 12 {
        0x17d
    } else if period == 13 {
        0x1fc
    } else if period == 14 {
        0x3f9
    } else {
        0x7f2
    }
}

impl NoiseRegister {
    /// The fields are within the widths of their bit fields.
    pub open spec fn wf(&self) -> bool {
        &&& self.volume < 16
        &&& self.period < 16
        &&& self.length_counter_load < 32
    }

    pub open spec fn spec_new() -> NoiseRegister {
        NoiseRegister {
            is_length_counter_halt: true,
            is_constant_volume: false,
            volume: 0,
            is_long_period: true,
            period: 0,
            length_counter_load: 0,
        }
    }

    /// The channel after a write of `data` to `addr`.
    ///
    /// 0x400C holds the length-counter halt (bit 5, stored inverted),
    /// constant volume (bit 4) and volume (bits 0-3); 0x400D is unused;
    /// 0x400E holds the mode (bit 7, stored inverted: set means the short
    /// sequence) and the period setting (bits 0-3); 0x400F holds the
    /// length-counter load (bits 3-7).
    pub open spec fn spec_write(self, addr: u16, data: u8) -> NoiseRegister {
        if addr == 0x400C {
            NoiseRegister {
                is_length_counter_halt: (data / 32) % 2 == 0,
                is_constant_volume: (data / 16) % 2 != 0,
                volume: data % 16,
                ..self
            }
        } else if addr == 0x400D {
            self
        } else if addr == 0x400E {
            NoiseRegister { is_long_period: data < 128, period: data % 16, ..self }
        } else {
            NoiseRegister { length_counter_load: data / 8, ..self }
        }
    }

    /// Volume, from 0 to 15.
    pub open spec fn spec_volume_level(&self) -> u8 {
        self.volume % 16
    }

    /// Tells whether the fields are within the widths of their bit fields.
    pub fn well_formed(&self) -> (r: bool)
        ensures
            r == self.wf(),
    {
        self.volume < 16 && self.period < 16 && self.length_counter_load < 32
    }

    pub fn new() -> (r: Self)
        ensures
            r == Self::spec_new(),
            r.wf(),
    {
        NoiseRegister {
            is_length_counter_halt: true,
            is_constant_volume: false,
            volume: 0,
            is_long_period: true,
            period: 0,
            length_counter_load: 0,
        }
    }

    pub fn write(&mut self, addr: u16, data: u8)
        requires
            0x400C <= addr <= 0x400F,
            old(self).wf(),
        ensures
            *final(self) == old(self).spec_write(addr, data),
            final(self).wf(),
    {
        if addr == 0x400C {
            self.is_length_counter_halt = (data / 32) % 2 == 0;
            self.is_constant_volume = (data / 16) % 2 != 0;
            self.volume = data % 16;
        } else if addr == 0x400D {
        } else if addr == 0x400E {
            self.is_long_period = data < 128;
            self.period = data % 16;
        } else {
            self.length_counter_load = data / 8;
        }
    }

    pub fn volume_level(&self) -> (r: u8)
        ensures
            r == self.spec_volume_level(),
            r < 16,
    {
        self.volume % 16
    }

    /// CPU cycles between two steps of the noise generator.
    pub fn period_cycles(&self) -> (t: u16)
        requires
            self.wf(),
        ensures
            t == spec_noise_period_cycles(self.period),
            t > 0,
    {
        match self.period {
            0 => 0x002,
            1 => 0x004,
            2 => 0x008,
            3 => 0x010,
            4 => 0x020,
            5 => 0x030,
            6 => 0x040,
            7 => 0x050,
            8 => 0x065,
            9 => 0x07f,
            10 => 0x0be,
            11 => 0x0fe,
            12 => 0x17d,
            13 => 0x1fc,
            14 => 0x3f9,
            _ => 0x7f2,
        }
    }
}

} // verus!
