//! The Status register of the graphics unit.

use vstd::prelude::*;
use crate::bitfield::{contains, put, spec_contains, spec_put};

verus! {

// 7  bit  0
// ---- ----
// VSO. ....
// |||| ||||
// |||+-++++- Not used
// ||+------- Sprite overflow
// |+-------- Sprite 0 hit: set when a nonzero pixel of sprite 0 overlaps
// |          a nonzero background pixel; cleared on the pre-render line
// +--------- Vertical blank has started
pub const SPRITE_OVERFLOW: u8 = 0b0010_0000;

pub const SPRITE_ZERO_HIT: u8 = 0b0100_0000;

pub const VBLANK_STARTED: u8 = 0b1000_0000;

#[derive(Clone, Copy, Debug, PartialEq, Eq, Structural)]
pub struct StatusRegister {
    pub bits: u8,
}

impl StatusRegister {
    pub open spec fn spec_set_vblank_status(self, status: bool) -> Self {
        StatusRegister { bits: spec_put(self.bits, VBLANK_STARTED, status) }
    }

    pub open spec fn spec_set_sprite_zero_hit(self, status: bool) -> Self {
        StatusRegister { bits: spec_put(self.bits, SPRITE_ZERO_HIT, status) }
    }

    pub open spec fn spec_set_sprite_overflow(self, status: bool) -> Self {
        StatusRegister { bits: spec_put(self.bits, SPRITE_OVERFLOW, status) }
    }

    pub open spec fn spec_is_in_vblank(&self) -> bool {
        spec_contains(self.bits, VBLANK_STARTED)
    }

    pub open spec fn spec_is_sprite_zero_hit(&self) -> bool {
        spec_contains(self.bits, SPRITE_ZERO_HIT)
    }

    pub fn new() -> (r: Self)
        ensures
            r.bits == 0,
    {
        StatusRegister { bits: 0b0000_0000 }
    }

    pub fn set_vblank_status(&mut self, status: bool)
        ensures
            *final(self) == old(self).spec_set_vblank_status(status),
    {
        self.bits = put(self.bits, VBLANK_STARTED, status);
    }

    pub fn set_sprite_zero_hit(&mut self, status: bool)
        ensures
            *final(self) == old(self).spec_set_sprite_zero_hit(status),
    {
        self.bits = put(self.bits, SPRITE_ZERO_HIT, status);
    }

    pub fn set_sprite_overflow(&mut self, status: bool)
        ensures
            *final(self) == old(self).spec_set_sprite_overflow(status),
    {
        self.bits = put(self.bits, SPRITE_OVERFLOW, status);
    }

    pub fn reset_vblank_status(&mut self)
        ensures
            *final(self) == old(self).spec_set_vblank_status(false),
    {
        self.bits = put(self.bits, VBLANK_STARTED, false);
    }

    pub fn is_in_vblank(&self) -> (r: bool)
        ensures
            r == self.spec_is_in_vblank(),
    {
        contains(self.bits, VBLANK_STARTED)
    }

    pub fn is_sprite_zero_hit(&self) -> (r: bool)
        ensures
            r == self.spec_is_sprite_zero_hit(),
    {
        contains(self.bits, SPRITE_ZERO_HIT)
    }

    pub fn snapshot(&self) -> (r: u8)
        ensures
            r == self.bits,
    {
        self.bits
    }
}

} // verus!
