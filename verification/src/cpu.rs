//! The CPU: registers, flags, and the fetch-decode-execute engine.

pub mod alu;
pub mod engine;
pub mod flags;
pub mod instructions;
pub mod laws;
pub mod modes;
pub mod runs;
pub mod state;

use vstd::prelude::*;
use crate::bus::Bus;
use crate::cpu::flags::CpuFlags;
use crate::cpu::state::{CpuState, RESET_VECTOR, STACK, STACK_RESET, STATUS_RESET};

pub use crate::mem::Mem;

verus! {

/// The rule by which an instruction finds its operand.
#[derive(Clone, Copy, Debug, PartialEq, Eq, Structural)]
#[allow(non_camel_case_types)]
pub enum AddressingMode {
    Immediate,
    ZeroPage,
    ZeroPage_X,
    ZeroPage_Y,
    Absolute,
    Absolute_X,
    Absolute_Y,
    Indirect,
    Indirect_X,
    Indirect_Y,
    NoneAddressing,
}

/// A defect that stops the machine for good.
///
/// A defect is fatal. The value stands for the halt of the emulation: once
/// one is on record the machine fetches no further instruction and leaves
/// the bus alone, every later step reports the same defect, and whoever
/// drives the machine is to stop with a diagnostic that names it.
#[derive(Clone, Copy, Debug, PartialEq, Eq, Structural)]
pub enum Fault {
    /// A read of an address that the bus does not allow to be read.
    IllegalRead(u16),
    /// A write to an address that the bus does not allow to be written.
    IllegalWrite(u16),
    /// An opcode byte without an entry in the instruction table.
    UnknownOpcode(u8),
    /// An instruction asked for an operand in a mode that has none.
    UnsupportedMode(AddressingMode),
}

/// How a run of the machine went.
#[derive(Clone, Copy, Debug, PartialEq, Eq, Structural)]
pub struct RunReport {
    /// Steps made.
    pub steps: u32,
    /// How the last step ended; `Continue` when no step was made.
    pub outcome: StepOutcome,
}

/// How a step of the machine ended.
#[derive(Clone, Copy, Debug, PartialEq, Eq, Structural)]
pub enum StepOutcome {
    /// An instruction ran.
    Continue,
    /// An instruction ran, and while its cycles passed the graphics unit
    /// raised its interrupt: a frame is ready to be shown.
    FrameReady,
    /// The instruction was `BRK`: the run ends.
    Break,
    /// The machine met a defect, now or earlier, and has halted: nothing
    /// remains but to stop with a diagnostic.
    Fault(Fault),
}

pub struct CPU {
    pub reg_a: u8,
    pub reg_x: u8,
    pub reg_y: u8,
    pub stack_pointer: u8,
    pub status: CpuFlags,
    pub program_counter: u16,
    pub bus: Bus,
    /// The first defect met, if any.
    pub fault: Option<Fault>,
}

impl View for CPU {
    type V = CpuState;

    open spec fn view(&self) -> CpuState {
        CpuState {
            reg_a: self.reg_a,
            reg_x: self.reg_x,
            reg_y: self.reg_y,
            stack_pointer: self.stack_pointer,
            status: self.status,
            program_counter: self.program_counter,
            fault: self.fault,
            bus: self.bus@,
        }
    }
}

impl Mem for CPU {
    type State = CpuState;

    open spec fn mem_state(&self) -> CpuState {
        self@
    }

    open spec fn mem_wf(s: CpuState) -> bool {
        s.wf()
    }

    open spec fn spec_can_read(s: CpuState, addr: u16) -> bool {
        true
    }

    open spec fn spec_read(s: CpuState, addr: u16) -> (u8, CpuState) {
        s.read(addr)
    }

    open spec fn spec_can_write(s: CpuState, addr: u16, data: u8) -> bool {
        true
    }

    open spec fn spec_write(s: CpuState, addr: u16, data: u8) -> CpuState {
        s.write(addr, data)
    }

    fn mem_read(&mut self, addr: u16) -> (data: u8) {
        if self.fault.is_none() && self.bus.can_read(addr) {
            self.bus.mem_read(addr)
        } else {
            self.raise(Fault::IllegalRead(addr));
            0
        }
    }

    fn mem_write(&mut self, addr: u16, data: u8) {
        if self.fault.is_none() && self.bus.can_write(addr, data) {
            self.bus.mem_write(addr, data)
        } else {
            self.raise(Fault::IllegalWrite(addr));
        }
    }
}

impl CPU {
    /// A processor around a bus, with the registers as a reset leaves them
    /// and the program counter at 0.
    pub fn new(bus: Bus) -> (r: Self)
        ensures
            r@ == CpuState::initial(bus@),
    {
        CPU {
            reg_a: 0,
            reg_x: 0,
            reg_y: 0,
            stack_pointer: STACK_RESET,
            status: CpuFlags::from_bits_truncate(STATUS_RESET),
            program_counter: 0,
            bus,
            fault: None,
        }
    }

    /// Tells whether the machine is in a state that its operations accept.
    pub fn well_formed(&self) -> (r: bool)
        ensures
            r == self@.wf(),
    {
        self.bus.well_formed()
    }

    /// Tells whether the reset vector lies in ROM that the cartridge holds.
    pub fn has_reset_vector(&self) -> (r: bool)
        ensures
            r == self@.has_reset_vector(),
    {
        self.bus.rom_covers(RESET_VECTOR) && self.bus.rom_covers(RESET_VECTOR + 1)
    }

    /// Records `fault`, unless a defect is on record already.
    fn raise(&mut self, fault: Fault)
        ensures
            final(self)@ == old(self)@.raise(fault),
    {
        if self.fault.is_none() {
            self.fault = Some(fault);
        }
    }

    fn stack_pop(&mut self) -> (data: u8)
        requires
            old(self)@.wf(),
        ensures
            (data, final(self)@) == old(self)@.stack_pop(),
            final(self)@.wf(),
    {
        self.stack_pointer = self.stack_pointer.wrapping_add(1);
        self.mem_read(STACK + self.stack_pointer as u16)
    }

    fn stack_push(&mut self, data: u8)
        requires
            old(self)@.wf(),
        ensures
            final(self)@ == old(self)@.stack_push(data),
            final(self)@.wf(),
    {
        self.mem_write(STACK + self.stack_pointer as u16, data);
        self.stack_pointer = self.stack_pointer.wrapping_sub(1);
    }

    fn stack_push_u16(&mut self, data: u16)
        requires
            old(self)@.wf(),
        ensures
            final(self)@ == old(self)@.stack_push_u16(data),
            final(self)@.wf(),
    {
        let high = (data / 256) as u8;
        let low = (data % 256) as u8;
        self.stack_push(high);
        self.stack_push(low);
    }

    fn stack_pop_u16(&mut self) -> (data: u16)
        requires
            old(self)@.wf(),
        ensures
            (data, final(self)@) == old(self)@.stack_pop_u16(),
            final(self)@.wf(),
    {
        let low = self.stack_pop() as u16;
        let high = self.stack_pop() as u16;
        high * 256 + low
    }

    /// Reinitializes the registers and loads the program counter from the
    /// reset vector.
    pub fn reset(&mut self)
        requires
            old(self)@.wf(),
        ensures
            final(self)@ == old(self)@.reset(),
            final(self)@.wf(),
    {
        self.reg_a = 0;
        self.reg_x = 0;
        self.reg_y = 0;
        self.stack_pointer = STACK_RESET;
        self.status = CpuFlags::from_bits_truncate(STATUS_RESET);

        self.program_counter = self.mem_read_u16(RESET_VECTOR);
    }

    fn update_zero_n_negative_flag(&mut self, result: u8)
        ensures
            final(self)@ == old(self)@.with_zero_n_negative(result),
    {
        self.status = self.status.with_zero_n_negative(result);
    }

    fn set_flag(&mut self, flag: u8, on: bool)
        ensures
            final(self)@ == old(self)@.with_flag(flag, on),
    {
        self.status = self.status.with(flag, on);
    }

    fn get_operand_address(&mut self, mode: AddressingMode) -> (addr: u16)
        requires
            old(self)@.wf(),
        ensures
            (addr, final(self)@) == old(self)@.operand_address(mode),
            final(self)@.wf(),
    {
        match mode {
            AddressingMode::Immediate => self.program_counter,
            AddressingMode::Indirect | AddressingMode::NoneAddressing => {
                self.raise(Fault::UnsupportedMode(mode));
                0
            },
            _ => self.get_absolute_address(mode, self.program_counter),
        }
    }

    /// Finds the effective address of an operand whose description starts
    /// at `addr`, for the modes that have one in memory.
    pub fn get_absolute_address(&mut self, mode: AddressingMode, addr: u16) -> (r: u16)
        requires
            old(self)@.wf(),
            CpuState::resolves(mode),
        ensures
            (r, final(self)@) == old(self)@.absolute_address(mode, addr),
            final(self)@.wf(),
    {
        match mode {
            AddressingMode::ZeroPage => self.mem_read(addr) as u16,
            AddressingMode::ZeroPage_X => {
                let pos = self.mem_read(addr);
                pos.wrapping_add(self.reg_x) as u16
            },
            AddressingMode::ZeroPage_Y => {
                let pos = self.mem_read(addr);
                pos.wrapping_add(self.reg_y) as u16
            },
            AddressingMode::Absolute => self.mem_read_u16(addr),
            AddressingMode::Absolute_X => {
                let pos = self.mem_read_u16(addr);
                pos.wrapping_add(self.reg_x as u16)
            },
            AddressingMode::Absolute_Y => {
                let pos = self.mem_read_u16(addr);
                pos.wrapping_add(self.reg_y as u16)
            },
            AddressingMode::Indirect_X => {
                let base = self.mem_read(addr);
                let ptr = base.wrapping_add(self.reg_x);
                let low = self.mem_read(ptr as u16);
                let high = self.mem_read(ptr.wrapping_add(1) as u16);
                (high as u16) * 256 + (low as u16)
            },
            _ => {
                let base = self.mem_read(addr);
                let low = self.mem_read(base as u16);
                let high = self.mem_read(base.wrapping_add(1) as u16);
                let deref_base = (high as u16) * 256 + (low as u16);
                deref_base.wrapping_add(self.reg_y as u16)
            },
        }
    }
}

} // verus!
