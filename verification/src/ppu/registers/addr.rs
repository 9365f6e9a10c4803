//! The Addr register: a 14-bit video memory address, written high byte
//! first.

use vstd::prelude::*;

verus! {

/// Number of addresses in the graphics unit's address space.
pub const VIDEO_ADDRESS_SPACE: u16 = 0x4000;

#[derive(Clone, Copy, Debug, PartialEq, Eq, Structural)]
pub struct AddrRegister {
    pub hi: u8,
    pub lo: u8,
    pub hi_ptr: bool,
}

impl AddrRegister {
    /// The held address stays inside the 14-bit address space.
    pub open spec fn wf(&self) -> bool {
        self.hi < 0x40
    }

    /// The held address.
    pub open spec fn spec_get(&self) -> u16 {
        (self.hi * 256 + self.lo) as u16
    }

    /// The register after one write: the first write of a pair sets the high
    /// byte, folded into the address space, the second the low byte.
    pub open spec fn spec_update(self, data: u8) -> Self {
        if self.hi_ptr {
            AddrRegister { hi: data % 0x40, hi_ptr: false, ..self }
        } else {
            AddrRegister { lo: data, hi_ptr: true, ..self }
        }
    }

    /// The register after the address moved forward by `inc`, wrapping at
    /// the end of the address space.
    pub open spec fn spec_increment(self, inc: u8) -> Self {
        let next = (self.spec_get() + inc) % (VIDEO_ADDRESS_SPACE as int);
        AddrRegister { hi: (next / 256) as u8, lo: (next % 256) as u8, ..self }
    }

    pub open spec fn spec_reset_latch(self) -> Self {
        AddrRegister { hi_ptr: true, ..self }
    }

    /// Tells whether the held address is inside the address space.
    pub fn well_formed(&self) -> (r: bool)
        ensures
            r == self.wf(),
    {
        self.hi < 0x40
    }

    pub fn new() -> (r: Self)
        ensures
            r == (AddrRegister { hi: 0, lo: 0, hi_ptr: true }),
            r.wf(),
    {
        AddrRegister { hi: 0, lo: 0, hi_ptr: true }
    }

    pub fn update(&mut self, data: u8)
        requires
            old(self).wf(),
        ensures
            *final(self) == old(self).spec_update(data),
            final(self).wf(),
    {
        if self.hi_ptr {
            self.hi = data % 0x40;
        } else {
            self.lo = data;
        }
        self.hi_ptr = !self.hi_ptr;
    }

    pub fn increment(&mut self, inc: u8)
        requires
            old(self).wf(),
        ensures
            *final(self) == old(self).spec_increment(inc),
            final(self).wf(),
            final(self).spec_get() == (old(self).spec_get() + inc) % (VIDEO_ADDRESS_SPACE as int),
    {
        let next: u16 = (self.get() + inc as u16) % VIDEO_ADDRESS_SPACE;
        self.hi = (next / 256) as u8;
        self.lo = (next % 256) as u8;
    }

    pub fn reset_latch(&mut self)
        ensures
            *final(self) == old(self).spec_reset_latch(),
    {
        self.hi_ptr = true;
    }

    pub fn get(&self) -> (r: u16)
        requires
            self.wf(),
        ensures
            r == self.spec_get(),
            r < VIDEO_ADDRESS_SPACE,
    {
        self.hi as u16 * 256 + self.lo as u16
    }
}

} // verus!
