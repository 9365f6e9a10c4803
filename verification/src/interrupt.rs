//! The interrupts of the processor, as descriptors.
//!
//! The engine does not dispatch through these yet: `BRK` ends a run, and
//! the interrupt of the graphics unit is reported to whoever drives the
//! machine.

use vstd::prelude::*;

verus! {

#[derive(Clone, Copy, Debug, PartialEq, Eq, Structural)]
pub enum InterruptType {
    NMI,
    BRK,
}

/// What entering an interrupt takes: where its handler's address is kept,
/// which of the Break bits the pushed status carries, and what it costs.
#[derive(Clone, Copy, Debug, PartialEq, Eq, Structural)]
pub struct Interrupt {
    pub itype: InterruptType,
    pub vector_addr: u16,
    pub b_flag_mask: u8,
    pub cpu_cycles: u8,
}

impl Interrupt {
    pub open spec fn spec_nmi() -> Interrupt {
        Interrupt {
            itype: InterruptType::NMI,
            vector_addr: 0xFFFA,
            b_flag_mask: 0b0010_0000,
            cpu_cycles: 2,
        }
    }

    pub open spec fn spec_brk() -> Interrupt {
        Interrupt {
            itype: InterruptType::BRK,
            vector_addr: 0xFFFE,
            b_flag_mask: 0b0011_0000,
            cpu_cycles: 1,
        }
    }

    /// The non-maskable interrupt.
    pub fn nmi() -> (r: Interrupt)
        ensures
            r == Self::spec_nmi(),
    {
        Interrupt {
            itype: InterruptType::NMI,
            vector_addr: 0xFFFA,
            b_flag_mask: 0b0010_0000,
            cpu_cycles: 2,
        }
    }

    /// The software interrupt.
    pub fn brk() -> (r: Interrupt)
        ensures
            r == Self::spec_brk(),
    {
        Interrupt {
            itype: InterruptType::BRK,
            vector_addr: 0xFFFE,
            b_flag_mask: 0b0011_0000,
            cpu_cycles: 1,
        }
    }
}

} // verus!
