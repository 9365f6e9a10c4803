//! The Control register of the graphics unit.

use vstd::prelude::*;
use crate::bitfield::{contains, spec_contains};

verus! {

// 7  bit  0
// ---- ----
// VPHB SINN
// |||| ||||
// |||| ||++- Base nametable address
// |||| ||    (0 = $2000; 1 = $2400; 2 = $2800; 3 = $2C00)
// |||| |+--- VRAM address increment per CPU read/write of the Data register
// |||| |     (0: add 1, going across; 1: add 32, going down)
// |||| +---- Sprite pattern table address for 8x8 sprites
// ||||       (0: $0000; 1: $1000; ignored in 8x16 mode)
// |||+------ Background pattern table address (0: $0000; 1: $1000)
// ||+------- Sprite size (0: 8x8 pixels; 1: 8x16 pixels)
// |+-------- Master/slave select
// +--------- Generate an NMI at the start of the vertical blanking interval
pub const NAMETABLE1: u8 = 0b0000_0001;

pub const NAMETABLE2: u8 = 0b0000_0010;

pub const VRAM_ADD_INCREMENT: u8 = 0b0000_0100;

pub const SPRITE_PATTERN_ADDR: u8 = 0b0000_1000;

pub const BACKROUND_PATTERN_ADDR: u8 = 0b0001_0000;

pub const SPRITE_SIZE: u8 = 0b0010_0000;

pub const MASTER_SLAVE_SELECT: u8 = 0b0100_0000;

pub const GENERATE_NMI: u8 = 0b1000_0000;

#[derive(Clone, Copy, Debug, PartialEq, Eq, Structural)]
pub struct ControlRegister {
    pub bits: u8,
}

impl ControlRegister {
    /// Address of the base nametable selected by the two low bits.
    pub open spec fn spec_nametable_addr(&self) -> u16 {
        if !spec_contains(self.bits, NAMETABLE2) {
            if !spec_contains(self.bits, NAMETABLE1) {
                0x2000
            } else {
                0x2400
            }
        } else {
            if !spec_contains(self.bits, NAMETABLE1) {
                0x2800
            } else {
                0x2c00
            }
        }
    }

    /// Step of the video memory address after an access to the Data
    /// register: 1 (across) or 32 (down).
    pub open spec fn spec_vram_addr_increment(&self) -> u8 {
        if !spec_contains(self.bits, VRAM_ADD_INCREMENT) {
            1
        } else {
            32
        }
    }

    pub open spec fn spec_sprt_pattern_addr(&self) -> u16 {
        if !spec_contains(self.bits, SPRITE_PATTERN_ADDR) {
            0
        } else {
            0x1000
        }
    }

    pub open spec fn spec_bknd_pattern_addr(&self) -> u16 {
        if !spec_contains(self.bits, BACKROUND_PATTERN_ADDR) {
            0
        } else {
            0x1000
        }
    }

    pub open spec fn spec_sprite_size(&self) -> u8 {
        if !spec_contains(self.bits, SPRITE_SIZE) {
            8
        } else {
            16
        }
    }

    pub open spec fn spec_master_slave_select(&self) -> u8 {
        if !spec_contains(self.bits, MASTER_SLAVE_SELECT) {
            0
        } else {
            1
        }
    }

    pub open spec fn spec_generate_vblank_nmi(&self) -> bool {
        spec_contains(self.bits, GENERATE_NMI)
    }

    pub fn new() -> (r: Self)
        ensures
            r.bits == 0,
    {
        ControlRegister { bits: 0b0000_0000 }
    }

    pub fn nametable_addr(&self) -> (r: u16)
        ensures
            r == self.spec_nametable_addr(),
    {
        if !contains(self.bits, NAMETABLE2) {
            if !contains(self.bits, NAMETABLE1) {
                0x2000
            } else {
                0x2400
            }
        } else {
            if !contains(self.bits, NAMETABLE1) {
                0x2800
            } else {
                0x2c00
            }
        }
    }

    pub fn vram_addr_increment(&self) -> (r: u8)
        ensures
            r == self.spec_vram_addr_increment(),
    {
        if !contains(self.bits, VRAM_ADD_INCREMENT) {
            1
        } else {
            32
        }
    }

    pub fn sprt_pattern_addr(&self) -> (r: u16)
        ensures
            r == self.spec_sprt_pattern_addr(),
    {
        if !contains(self.bits, SPRITE_PATTERN_ADDR) {
            0
        } else {
            0x1000
        }
    }

    pub fn bknd_pattern_addr(&self) -> (r: u16)
        ensures
            r == self.spec_bknd_pattern_addr(),
    {
        if !contains(self.bits, BACKROUND_PATTERN_ADDR) {
            0
        } else {
            0x1000
        }
    }

    pub fn sprite_size(&self) -> (r: u8)
        ensures
            r == self.spec_sprite_size(),
    {
        if !contains(self.bits, SPRITE_SIZE) {
            8
        } else {
            16
        }
    }

    pub fn master_slave_select(&self) -> (r: u8)
        ensures
            r == self.spec_master_slave_select(),
    {
        if !contains(self.bits, MASTER_SLAVE_SELECT) {
            0
        } else {
            1
        }
    }

    pub fn generate_vblank_nmi(&self) -> (r: bool)
        ensures
            r == self.spec_generate_vblank_nmi(),
    {
        contains(self.bits, GENERATE_NMI)
    }

    pub fn update(&mut self, data: u8)
        ensures
            final(self).bits == data,
    {
        self.bits = data;
    }
}

} // verus!
