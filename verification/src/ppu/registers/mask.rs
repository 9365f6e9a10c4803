//! The Mask register: what the graphics unit draws, and how.

use vstd::prelude::*;
use crate::bitfield::{contains, spec_contains};

verus! {

// 7  bit  0
// ---- ----
// BGRs bMmG
// |||| ||||
// |||| |||+- Greyscale (0: normal color, 1: produce a greyscale display)
// |||| ||+-- 1: Show background in leftmost 8 pixels of screen, 0: Hide
// |||| |+--- 1: Show sprites in leftmost 8 pixels of screen, 0: Hide
// |||| +---- 1: Show background
// |||+------ 1: Show sprites
// ||+------- Emphasize red
// |+-------- Emphasize green
// +--------- Emphasize blue
pub const GRAYSCALE: u8 = 0b0000_0001;

pub const LEFTMOST_8PIXEL_BACKGROUND: u8 = 0b0000_0010;

pub const LEFTMOST_8PIXEL_SPRITES: u8 = 0b0000_0100;

pub const SHOW_BACKGROUND: u8 = 0b0000_1000;

pub const SHOW_SPRITES: u8 = 0b0001_0000;

pub const EMPHASIZE_RED: u8 = 0b0010_0000;

pub const EMPHASIZE_GREEN: u8 = 0b0100_0000;

pub const EMPHASIZE_BLUE: u8 = 0b1000_0000;

/// A colour channel that the Mask register can emphasize.
#[derive(Clone, Copy, Debug, PartialEq, Eq, Structural)]
pub enum Color {
    Red,
    Green,
    Blue,
}

#[derive(Clone, Copy, Debug, PartialEq, Eq, Structural)]
pub struct MaskRegister {
    pub bits: u8,
}

impl MaskRegister {
    pub open spec fn spec_is_grayscale(&self) -> bool {
        spec_contains(self.bits, GRAYSCALE)
    }

    pub open spec fn spec_leftmost_8pixel_background(&self) -> bool {
        spec_contains(self.bits, LEFTMOST_8PIXEL_BACKGROUND)
    }

    pub open spec fn spec_leftmost_8pixel_sprites(&self) -> bool {
        spec_contains(self.bits, LEFTMOST_8PIXEL_SPRITES)
    }

    pub open spec fn spec_show_background(&self) -> bool {
        spec_contains(self.bits, SHOW_BACKGROUND)
    }

    pub open spec fn spec_show_sprites(&self) -> bool {
        spec_contains(self.bits, SHOW_SPRITES)
    }

    /// The emphasized channels, in the order red, green, blue.
    pub open spec fn spec_emphasize(&self) -> Seq<Color> {
        let red = if spec_contains(self.bits, EMPHASIZE_RED) {
            seq![Color::Red]
        } else {
            Seq::<Color>::empty()
        };
        let green = if spec_contains(self.bits, EMPHASIZE_GREEN) {
            seq![Color::Green]
        } else {
            Seq::<Color>::empty()
        };
        let blue = if spec_contains(self.bits, EMPHASIZE_BLUE) {
            seq![Color::Blue]
        } else {
            Seq::<Color>::empty()
        };
        red + green + blue
    }

    pub fn new() -> (r: Self)
        ensures
            r.bits == 0,
    {
        MaskRegister { bits: 0b0000_0000 }
    }

    pub fn is_grayscale(&self) -> (r: bool)
        ensures
            r == self.spec_is_grayscale(),
    {
        contains(self.bits, GRAYSCALE)
    }

    pub fn leftmost_8pixel_background(&self) -> (r: bool)
        ensures
            r == self.spec_leftmost_8pixel_background(),
    {
        contains(self.bits, LEFTMOST_8PIXEL_BACKGROUND)
    }

    pub fn leftmost_8pixel_sprites(&self) -> (r: bool)
        ensures
            r == self.spec_leftmost_8pixel_sprites(),
    {
        contains(self.bits, LEFTMOST_8PIXEL_SPRITES)
    }

    pub fn show_background(&self) -> (r: bool)
        ensures
            r == self.spec_show_background(),
    {
        contains(self.bits, SHOW_BACKGROUND)
    }

    pub fn show_sprites(&self) -> (r: bool)
        ensures
            r == self.spec_show_sprites(),
    {
        contains(self.bits, SHOW_SPRITES)
    }

    pub fn emphasize(&self) -> (result: Vec<Color>)
        ensures
            result@ == self.spec_emphasize(),
    {
        let mut result = Vec::<Color>::new();
        if contains(self.bits, EMPHASIZE_RED) {
            result.push(Color::Red);
        }
        if contains(self.bits, EMPHASIZE_GREEN) {
            result.push(Color::Green);
        }
        if contains(self.bits, EMPHASIZE_BLUE) {
            result.push(Color::Blue);
        }
        result
    }

    pub fn update(&mut self, data: u8)
        ensures
            final(self).bits == data,
    {
        self.bits = data;
    }
}

} // verus!
