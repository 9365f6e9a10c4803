//! The Scroll register: two writes, horizontal offset first.

use vstd::prelude::*;

verus! {

#[derive(Clone, Copy, Debug, PartialEq, Eq, Structural)]
pub struct ScrollRegister {
    pub scroll_x: u8,
    pub scroll_y: u8,
    pub latch: bool,
}

impl ScrollRegister {
    /// The register after one write: the first write of a pair sets the
    /// horizontal offset, the second the vertical one.
    pub open spec fn spec_write(self, data: u8) -> Self {
        if !self.latch {
            ScrollRegister { scroll_x: data, latch: true, ..self }
        } else {
            ScrollRegister { scroll_y: data, latch: false, ..self }
        }
    }

    pub open spec fn spec_reset_latch(self) -> Self {
        ScrollRegister { latch: false, ..self }
    }

    pub fn new() -> (r: Self)
        ensures
            r == (ScrollRegister { scroll_x: 0, scroll_y: 0, latch: false }),
    {
        ScrollRegister { scroll_x: 0, scroll_y: 0, latch: false }
    }

    pub fn write(&mut self, data: u8)
        ensures
            *final(self) == old(self).spec_write(data),
    {
        if !self.latch {
            self.scroll_x = data;
        } else {
            self.scroll_y = data;
        }
        self.latch = !self.latch;
    }

    pub fn reset_latch(&mut self)
        ensures
            *final(self) == old(self).spec_reset_latch(),
    {
        self.latch = false;
    }
}

} // verus!
