//! The four registers of a pulse channel.

use vstd::prelude::*;

verus! {

#[derive(Clone, Copy, Debug, PartialEq, Eq, Structural)]
pub struct PulseRegister {
    pub duty: u8,
    pub is_length_counter_halt: bool,
    pub is_constant_volume: bool,
    pub volume: u8,
    pub is_sweep_enable: bool,
    pub sweep_timer_count: u8,
    pub is_sweep_negate: bool,
    pub sweep_shift_count: u8,
    pub timer: u16,
    pub length_counter_load: u8,
}

impl PulseRegister {
    /// The fields are within the widths of their bit fields.
    pub open spec fn wf(&self) -> bool {
        &&& self.duty < 4
        &&& self.volume < 16
        &&& self.sweep_timer_count < 8
        &&& self.sweep_shift_count < 8
        &&& self.timer < 0x800
        &&& self.length_counter_load < 32
    }

    pub open spec fn spec_new() -> PulseRegister {
        PulseRegister {
            duty: 0,
            is_length_counter_halt: true,
            is_constant_volume: false,
            volume: 0,
            is_sweep_enable: false,
            sweep_timer_count: 0,
            is_sweep_negate: true,
            sweep_shift_count: 0,
            timer: 0,
            length_counter_load: 0,
        }
    }

    /// The channel after a write of `data` to register `addr - 0x4000`.
    ///
    /// Register 0 holds duty (bits 6-7), length-counter halt (bit 5, stored
    /// inverted), constant volume (bit 4) and volume (bits 0-3). Register 1
    /// holds the sweep unit: enable (bit 7), period (bits 4-6), negate (bit
    /// 3, stored inverted), shift (bits 0-2). Register 2 holds the low eight
    /// bits of the timer. Register 3 holds the length-counter load (bits
    /// 3-7) and the high three bits of the timer (bits 0-2).
    pub open spec fn spec_write(self, addr: u16, data: u8) -> PulseRegister {
        if addr == 0x4000 {
            PulseRegister {
                duty: data / 64,
                is_length_counter_halt: (data / 32) % 2 == 0,
                is_constant_volume: (data / 16) % 2 != 0,
                volume: data % 16,
                ..self
            }
        } else if addr == 0x4001 {
            PulseRegister {
                is_sweep_enable: data >= 128,
                sweep_timer_count: (data / 16) % 8,
                is_sweep_negate: (data / 8) % 2 == 0,
                sweep_shift_count: data % 8,
                ..self
            }
        } else if addr == 0x4002 {
            PulseRegister { timer: ((self.timer / 256) * 256 + data) as u16, ..self }
        } else {
            PulseRegister {
                length_counter_load: data / 8,
                timer: (self.timer % 256 + (data % 8) * 256) as u16,
                ..self
            }
        }
    }

    /// Index of the duty cycle: 0, 1, 2, 3 stand for 12.5%, 25%, 50%, 75%.
    pub open spec fn spec_duty_step(&self) -> u8 {
        self.duty
    }

    /// Volume, from 0 to 15.
    pub open spec fn spec_volume_level(&self) -> u8 {
        self.volume % 16
    }

    /// CPU cycles in one period of the wave.
    pub open spec fn spec_period_cycles(&self) -> u32 {
        (16 * (self.timer + 1)) as u32
    }

    /// Tells whether the fields are within the widths of their bit fields.
    pub fn well_formed(&self) -> (r: bool)
        ensures
            r == self.wf(),
    {
        self.duty < 4 && self.volume < 16 && self.sweep_timer_count < 8 && self.sweep_shift_count
            < 8 && self.timer < 0x800 && self.length_counter_load < 32
    }

    pub fn new() -> (r: Self)
        ensures
            r == Self::spec_new(),
            r.wf(),
    {
        PulseRegister {
            duty: 0,
            is_length_counter_halt: true,
            is_constant_volume: false,
            volume: 0,
            is_sweep_enable: false,
            sweep_timer_count: 0,
            is_sweep_negate: true,
            sweep_shift_count: 0,
            timer: 0,
            length_counter_load: 0,
        }
    }

    pub fn write(&mut self, addr: u16, data: u8)
        requires
            0x4000 <= addr <= 0x4003,
            old(self).wf(),
        ensures
            *final(self) == old(self).spec_write(addr, data),
            final(self).wf(),
    {
        if addr == 0x4000 {
            self.duty = data / 64;
            self.is_length_counter_halt = (data / 32) % 2 == 0;
            self.is_constant_volume = (data / 16) % 2 != 0;
            self.volume = data % 16;
        } else if addr == 0x4001 {
            self.is_sweep_enable = data >= 128;
            self.sweep_timer_count = (data / 16) % 8;
            self.is_sweep_negate = (data / 8) % 2 == 0;
            self.sweep_shift_count = data % 8;
        } else if addr == 0x4002 {
            self.timer = (self.timer / 256) * 256 + data as u16;
        } else {
            self.length_counter_load = data / 8;
            self.timer = self.timer % 256 + ((data % 8) as u16) * 256;
        }
    }

    pub fn duty_step(&self) -> (r: u8)
        ensures
            r == self.spec_duty_step(),
    {
        self.duty
    }

    pub fn volume_level(&self) -> (r: u8)
        ensures
            r == self.spec_volume_level(),
            r < 16,
    {
        self.volume % 16
    }

    pub fn period_cycles(&self) -> (r: u32)
        ensures
            r == self.spec_period_cycles(),
            r > 0,
    {
        16 * (self.timer as u32 + 1)
    }
}

} // verus!
