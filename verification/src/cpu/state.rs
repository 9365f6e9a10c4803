//! The machine as mathematical values, and what each instruction does to it.

use vstd::prelude::*;
use crate::bus::BusState;
use crate::cpu::alu::{
    spec_add_with_carry,
    spec_and_carry,
    spec_and_rotate_right,
    spec_and_shift_right,
    spec_bit_test,
    spec_branch_target,
    spec_compare,
    spec_rotate_left,
    spec_rotate_right,
    spec_shift_left,
    spec_shift_right,
    spec_subtract_with_carry,
};
use crate::cpu::flags::{
    CpuFlags,
    CARRY,
    DECIMAL_MODE,
    INTERRUPT_DISABLE,
    NEGATIV,
    OVERFLOW,
    ZERO,
};
use crate::cpu::{AddressingMode, Fault, StepOutcome};
use crate::mem::{spec_high_byte, spec_low_byte, spec_word};
use crate::opcodes::{spec_lookup, Mnemonic, OpCode};

verus! {

/// First address of the stack page.
pub const STACK: u16 = 0x0100;

/// The stack pointer after a reset.
pub const STACK_RESET: u8 = 0xfd;

/// The status register after a reset: InterruptDisable and Break2.
pub const STATUS_RESET: u8 = 0b0010_0100;

/// Where `load` puts a program.
pub const PROGRAM_START: u16 = 0x0600;

/// The longest program that fits between `PROGRAM_START` and the end of the
/// address space.
pub const PROGRAM_MAX_LEN: usize = 0xFA00;

/// Where the address of the first instruction is kept.
pub const RESET_VECTOR: u16 = 0xFFFC;

/// The mnemonic names an arithmetic, logic or compare instruction.
pub open spec fn is_arithmetic(mnemonic: Mnemonic) -> bool {
    mnemonic is ADC
        || mnemonic is SBC
        || mnemonic is AND
        || mnemonic is EOR
        || mnemonic is ORA
        || mnemonic is BIT
        || mnemonic is CMP
        || mnemonic is CPX
        || mnemonic is CPY
}

/// The mnemonic names a shift, rotate, increment or decrement instruction.
pub open spec fn is_shift(mnemonic: Mnemonic) -> bool {
    mnemonic is ASL
        || mnemonic is LSR
        || mnemonic is ROL
        || mnemonic is ROR
        || mnemonic is INC
        || mnemonic is DEC
        || mnemonic is INX
        || mnemonic is INY
        || mnemonic is DEX
        || mnemonic is DEY
}

/// The mnemonic names a branch instruction.
pub open spec fn is_branch(mnemonic: Mnemonic) -> bool {
    mnemonic is BCC
        || mnemonic is BCS
        || mnemonic is BEQ
        || mnemonic is BMI
        || mnemonic is BNE
        || mnemonic is BPL
        || mnemonic is BVC
        || mnemonic is BVS
}

/// The mnemonic names an instruction that sets or clears a flag, or does nothing.
pub open spec fn is_flag(mnemonic: Mnemonic) -> bool {
    mnemonic is CLC
        || mnemonic is CLD
        || mnemonic is CLI
        || mnemonic is CLV
        || mnemonic is SEC
        || mnemonic is SED
        || mnemonic is SEI
        || mnemonic is NOP
        || mnemonic is BRK
}

/// The mnemonic names a jump, return or stack instruction.
pub open spec fn is_jump(mnemonic: Mnemonic) -> bool {
    mnemonic is JMP
        || mnemonic is JSR
        || mnemonic is RTI
        || mnemonic is RTS
        || mnemonic is PHA
        || mnemonic is PHP
        || mnemonic is PLA
        || mnemonic is PLP
}

/// The mnemonic names a load, store or register-transfer instruction.
pub open spec fn is_transfer(mnemonic: Mnemonic) -> bool {
    mnemonic is LDA
        || mnemonic is LDX
        || mnemonic is LDY
        || mnemonic is STA
        || mnemonic is STX
        || mnemonic is STY
        || mnemonic is TAX
        || mnemonic is TAY
        || mnemonic is TSX
        || mnemonic is TXA
        || mnemonic is TXS
        || mnemonic is TYA
}

/// The mnemonic names an undocumented instruction that combines two documented ones.
pub open spec fn is_combined(mnemonic: Mnemonic) -> bool {
    mnemonic is DCP
        || mnemonic is ISB
        || mnemonic is RLA
        || mnemonic is RRA
        || mnemonic is SLO
        || mnemonic is SRE
        || mnemonic is LAX
        || mnemonic is SAX
        || mnemonic is LXA
        || mnemonic is XAA
}

/// The mnemonic names one of the remaining undocumented instructions.
pub open spec fn is_unstable(mnemonic: Mnemonic) -> bool {
    mnemonic is AHX
        || mnemonic is ALR
        || mnemonic is ANC
        || mnemonic is ARR
        || mnemonic is AXS
        || mnemonic is LAS
        || mnemonic is SHX
        || mnemonic is SHY
        || mnemonic is TAS
}

/// The state of the processor and of everything behind its bus.
#[verifier::ext_equal]
pub struct CpuState {
    pub reg_a: u8,
    pub reg_x: u8,
    pub reg_y: u8,
    pub stack_pointer: u8,
    pub status: CpuFlags,
    pub program_counter: u16,
    /// The first defect met, if any: from then on the bus is left alone.
    pub fault: Option<Fault>,
    pub bus: BusState,
}

impl CpuState {
    pub open spec fn wf(self) -> bool {
        self.bus.wf()
    }

    /// The state of a processor just built around a bus.
    pub open spec fn initial(bus: BusState) -> CpuState {
        CpuState {
            reg_a: 0,
            reg_x: 0,
            reg_y: 0,
            stack_pointer: STACK_RESET,
            status: CpuFlags { bits: STATUS_RESET },
            program_counter: 0,
            fault: None,
            bus,
        }
    }

    /// The state with `fault` recorded, unless one is recorded already.
    pub open spec fn raise(self, fault: Fault) -> CpuState {
        if self.fault is None {
            CpuState { fault: Some(fault), ..self }
        } else {
            self
        }
    }

    /// A read through the bus. A read that the bus does not allow returns
    /// 0, leaves the bus alone and is recorded as a defect; so does any
    /// read after a defect, except that the first defect stays on record.
    pub open spec fn read(self, addr: u16) -> (u8, CpuState) {
        if self.fault is None && self.bus.can_read(addr) {
            let r = self.bus.read(addr);
            (r.0, CpuState { bus: r.1, ..self })
        } else {
            (0u8, self.raise(Fault::IllegalRead(addr)))
        }
    }

    /// A write through the bus. A write that the bus does not allow is
    /// dropped and recorded as a defect; so is any write after a defect,
    /// except that the first defect stays on record.
    pub open spec fn write(self, addr: u16, data: u8) -> CpuState {
        if self.fault is None && self.bus.can_write(addr, data) {
            CpuState { bus: self.bus.write(addr, data), ..self }
        } else {
            self.raise(Fault::IllegalWrite(addr))
        }
    }

    /// A 16-bit little-endian read: low byte at `pos`, high byte after it.
    pub open spec fn read_u16(self, pos: u16) -> (u16, CpuState) {
        let low = self.read(pos);
        let high = low.1.read(pos.wrapping_add(1));
        (spec_word(low.0, high.0), high.1)
    }

    /// A 16-bit little-endian write: low byte at `pos`, high byte after it.
    pub open spec fn write_u16(self, pos: u16, data: u16) -> CpuState {
        self.write(pos, spec_low_byte(data)).write(pos.wrapping_add(1), spec_high_byte(data))
    }

    /// The address of the stack cell that the stack pointer names.
    pub open spec fn stack_addr(stack_pointer: u8) -> u16 {
        (STACK + stack_pointer) as u16
    }

    /// A pull from the stack: the pointer moves up, then the cell is read.
    pub open spec fn stack_pop(self) -> (u8, CpuState) {
        let stack_pointer = self.stack_pointer.wrapping_add(1);
        CpuState { stack_pointer, ..self }.read(Self::stack_addr(stack_pointer))
    }

    /// A push on the stack: the cell is written, then the pointer moves
    /// down.
    pub open spec fn stack_push(self, data: u8) -> CpuState {
        CpuState {
            stack_pointer: self.stack_pointer.wrapping_sub(1),
            ..self.write(Self::stack_addr(self.stack_pointer), data)
        }
    }

    /// A push of a 16-bit value: high byte first.
    pub open spec fn stack_push_u16(self, data: u16) -> CpuState {
        self.stack_push(spec_high_byte(data)).stack_push(spec_low_byte(data))
    }

    /// A pull of a 16-bit value: low byte first.
    pub open spec fn stack_pop_u16(self) -> (u16, CpuState) {
        let low = self.stack_pop();
        let high = low.1.stack_pop();
        (spec_word(low.0, high.0), high.1)
    }

    /// A reset: registers cleared, stack pointer and status at their reset
    /// values, and the program counter loaded from the reset vector. A
    /// defect on record stays on record.
    pub open spec fn reset(self) -> CpuState {
        let r = CpuState {
            reg_a: 0,
            reg_x: 0,
            reg_y: 0,
            stack_pointer: STACK_RESET,
            status: CpuFlags { bits: STATUS_RESET },
            ..self
        }.read_u16(RESET_VECTOR);
        CpuState { program_counter: r.0, ..r.1 }
    }

    /// The state after the first `n` bytes of `program` were written to
    /// memory from `PROGRAM_START` on.
    pub open spec fn load_bytes(self, program: Seq<u8>, n: nat) -> CpuState
        decreases n,
    {
        if n == 0 {
            self
        } else {
            self.load_bytes(program, (n - 1) as nat).write(
                (PROGRAM_START + n - 1) as u16,
                program[n - 1],
            )
        }
    }

    /// The state after `program` was written to memory from `PROGRAM_START`
    /// on and the reset vector was pointed at it. The vector lies in the
    /// cartridge's ROM, where it is patched; it is left alone if writing
    /// the program met a defect.
    pub open spec fn load(self, program: Seq<u8>) -> CpuState {
        let written = self.load_bytes(program, program.len());
        if written.fault is None {
            CpuState {
                bus: written.bus.patch_rom(RESET_VECTOR, spec_low_byte(PROGRAM_START)).patch_rom(
                    (RESET_VECTOR + 1) as u16,
                    spec_high_byte(PROGRAM_START),
                ),
                ..written
            }
        } else {
            written
        }
    }

    /// The reset vector lies in ROM that the cartridge holds.
    pub open spec fn has_reset_vector(self) -> bool {
        self.bus.rom_covers(RESET_VECTOR) && self.bus.rom_covers((RESET_VECTOR + 1) as u16)
    }

    /// A run of at most `budget` steps, which ends early with the first
    /// step that does not end in `Continue`: the state it leaves, the
    /// number of steps made, and how the last step ended (`Continue` when
    /// no step was made).
    pub open spec fn run(self, budget: nat) -> (CpuState, nat, StepOutcome)
        decreases budget,
    {
        if budget == 0 {
            (self, 0, StepOutcome::Continue)
        } else {
            let r = self.step();
            if r.1 is Continue {
                let rest = r.0.run((budget - 1) as nat);
                (rest.0, (rest.1 + 1) as nat, rest.2)
            } else {
                (r.0, 1, r.1)
            }
        }
    }

    pub open spec fn with_zero_n_negative(self, result: u8) -> CpuState {
        CpuState { status: self.status.spec_with_zero_n_negative(result), ..self }
    }

    pub open spec fn with_flag(self, flag: u8, on: bool) -> CpuState {
        CpuState { status: self.status.spec_with(flag, on), ..self }
    }

    /// The modes that `absolute_address` resolves.
    pub open spec fn resolves(mode: AddressingMode) -> bool {
        !(mode is Immediate) && !(mode is Indirect) && !(mode is NoneAddressing)
    }

    /// The effective address of an operand whose description starts at
    /// `addr`, and the state after the reads that finding it takes.
    ///
    /// Zero-page modes read one byte and add X or Y within the page.
    /// Absolute modes read two bytes and add X or Y within the address
    /// space. `Indirect_X` adds X to a zero-page byte and reads the address
    /// from the two zero-page cells found there; `Indirect_Y` reads the
    /// address from the two zero-page cells that the byte names and adds Y
    /// to it.
    pub open spec fn absolute_address(self, mode: AddressingMode, addr: u16) -> (u16, CpuState) {
        match mode {
            AddressingMode::ZeroPage => {
                let r = self.read(addr);
                (r.0 as u16, r.1)
            },
            AddressingMode::ZeroPage_X => {
                let r = self.read(addr);
                (r.0.wrapping_add(self.reg_x) as u16, r.1)
            },
            AddressingMode::ZeroPage_Y => {
                let r = self.read(addr);
                (r.0.wrapping_add(self.reg_y) as u16, r.1)
            },
            AddressingMode::Absolute => self.read_u16(addr),
            AddressingMode::Absolute_X => {
                let r = self.read_u16(addr);
                (r.0.wrapping_add(self.reg_x as u16), r.1)
            },
            AddressingMode::Absolute_Y => {
                let r = self.read_u16(addr);
                (r.0.wrapping_add(self.reg_y as u16), r.1)
            },
            AddressingMode::Indirect_X => {
                let base = self.read(addr);
                let ptr = base.0.wrapping_add(self.reg_x);
                let low = base.1.read(ptr as u16);
                let high = low.1.read(ptr.wrapping_add(1) as u16);
                (spec_word(low.0, high.0), high.1)
            },
            AddressingMode::Indirect_Y => {
                let base = self.read(addr);
                let low = base.1.read(base.0 as u16);
                let high = low.1.read(base.0.wrapping_add(1) as u16);
                (spec_word(low.0, high.0).wrapping_add(self.reg_y as u16), high.1)
            },
            _ => (0u16, self.raise(Fault::UnsupportedMode(mode))),
        }
    }

    /// The address of the operand of the instruction whose operand bytes
    /// start at the program counter. An immediate operand is the byte at
    /// the program counter itself. An instruction that needs an address and
    /// has a mode without one is a defect.
    pub open spec fn operand_address(self, mode: AddressingMode) -> (u16, CpuState) {
        match mode {
            AddressingMode::Immediate => (self.program_counter, self),
            _ => self.absolute_address(mode, self.program_counter),
        }
    }

    /// The operand of the instruction, and the state after fetching it.
    pub open spec fn operand(self, mode: AddressingMode) -> (u8, CpuState) {
        let a = self.operand_address(mode);
        a.1.read(a.0)
    }

    #[verifier::opaque]
    pub open spec fn adc(self, mode: AddressingMode) -> CpuState {
        let m = self.operand(mode);
        let r = spec_add_with_carry(m.1.reg_a, m.0, m.1.status);
        CpuState { reg_a: r.0, status: r.1, ..m.1 }
    }

    #[verifier::opaque]
    pub open spec fn sbc(self, mode: AddressingMode) -> CpuState {
        let m = self.operand(mode);
        let r = spec_subtract_with_carry(m.1.reg_a, m.0, m.1.status);
        CpuState { reg_a: r.0, status: r.1, ..m.1 }
    }

    #[verifier::opaque]
    pub open spec fn and(self, mode: AddressingMode) -> CpuState {
        let m = self.operand(mode);
        let result = m.1.reg_a & m.0;
        CpuState { reg_a: result, ..m.1 }.with_zero_n_negative(result)
    }

    #[verifier::opaque]
    pub open spec fn eor(self, mode: AddressingMode) -> CpuState {
        let m = self.operand(mode);
        let result = m.1.reg_a ^ m.0;
        CpuState { reg_a: result, ..m.1 }.with_zero_n_negative(result)
    }

    #[verifier::opaque]
    pub open spec fn ora(self, mode: AddressingMode) -> CpuState {
        let m = self.operand(mode);
        let result = m.1.reg_a | m.0;
        CpuState { reg_a: result, ..m.1 }.with_zero_n_negative(result)
    }

    /// ASL: on the accumulator when the mode names no operand, else on the
    /// operand in memory. The first component is the shifted value.
    #[verifier::opaque]
    pub open spec fn asl(self, mode: AddressingMode) -> (u8, CpuState) {
        match mode {
            AddressingMode::NoneAddressing => {
                let r = spec_shift_left(self.reg_a, self.status);
                (r.0, CpuState { reg_a: r.0, status: r.1, ..self })
            },
            _ => {
                let a = self.operand_address(mode);
                let m = a.1.read(a.0);
                let r = spec_shift_left(m.0, m.1.status);
                (r.0, CpuState { status: r.1, ..m.1.write(a.0, r.0) })
            },
        }
    }

    #[verifier::opaque]
    pub open spec fn lsr(self, mode: AddressingMode) -> (u8, CpuState) {
        match mode {
            AddressingMode::NoneAddressing => {
                let r = spec_shift_right(self.reg_a, self.status);
                (r.0, CpuState { reg_a: r.0, status: r.1, ..self })
            },
            _ => {
                let a = self.operand_address(mode);
                let m = a.1.read(a.0);
                let r = spec_shift_right(m.0, m.1.status);
                (r.0, CpuState { status: r.1, ..m.1.write(a.0, r.0) })
            },
        }
    }

    #[verifier::opaque]
    pub open spec fn rol(self, mode: AddressingMode) -> (u8, CpuState) {
        match mode {
            AddressingMode::NoneAddressing => {
                let r = spec_rotate_left(self.reg_a, self.status);
                (r.0, CpuState { reg_a: r.0, status: r.1, ..self })
            },
            _ => {
                let a = self.operand_address(mode);
                let m = a.1.read(a.0);
                let r = spec_rotate_left(m.0, m.1.status);
                (r.0, CpuState { status: r.1, ..m.1.write(a.0, r.0) })
            },
        }
    }

    #[verifier::opaque]
    pub open spec fn ror(self, mode: AddressingMode) -> (u8, CpuState) {
        match mode {
            AddressingMode::NoneAddressing => {
                let r = spec_rotate_right(self.reg_a, self.status);
                (r.0, CpuState { reg_a: r.0, status: r.1, ..self })
            },
            _ => {
                let a = self.operand_address(mode);
                let m = a.1.read(a.0);
                let r = spec_rotate_right(m.0, m.1.status);
                (r.0, CpuState { status: r.1, ..m.1.write(a.0, r.0) })
            },
        }
    }

    #[verifier::opaque]
    pub open spec fn bit(self, mode: AddressingMode) -> CpuState {
        let m = self.operand(mode);
        CpuState { status: spec_bit_test(m.1.reg_a, m.0, m.1.status), ..m.1 }
    }

    /// A branch: when `condition` holds, the displacement is read at the
    /// program counter and the branch is taken.
    #[verifier::opaque]
    pub open spec fn branch(self, condition: bool) -> CpuState {
        if condition {
            let jump = self.read(self.program_counter);
            CpuState { program_counter: spec_branch_target(self.program_counter, jump.0), ..jump.1 }
        } else {
            self
        }
    }

    #[verifier::opaque]
    pub open spec fn compare(self, mode: AddressingMode, compare_with: u8) -> CpuState {
        let m = self.operand(mode);
        CpuState { status: spec_compare(compare_with, m.0, m.1.status), ..m.1 }
    }

    #[verifier::opaque]
    pub open spec fn dec(self, mode: AddressingMode) -> CpuState {
        let a = self.operand_address(mode);
        let m = a.1.read(a.0);
        let result = m.0.wrapping_sub(1);
        m.1.write(a.0, result).with_zero_n_negative(result)
    }

    #[verifier::opaque]
    pub open spec fn inc(self, mode: AddressingMode) -> (u8, CpuState) {
        let a = self.operand_address(mode);
        let m = a.1.read(a.0);
        let result = m.0.wrapping_add(1);
        (result, m.1.write(a.0, result).with_zero_n_negative(result))
    }

    pub open spec fn dex(self) -> CpuState {
        let result = self.reg_x.wrapping_sub(1);
        CpuState { reg_x: result, ..self }.with_zero_n_negative(result)
    }

    pub open spec fn dey(self) -> CpuState {
        let result = self.reg_y.wrapping_sub(1);
        CpuState { reg_y: result, ..self }.with_zero_n_negative(result)
    }

    pub open spec fn inx(self) -> CpuState {
        let result = self.reg_x.wrapping_add(1);
        CpuState { reg_x: result, ..self }.with_zero_n_negative(result)
    }

    pub open spec fn iny(self) -> CpuState {
        let result = self.reg_y.wrapping_add(1);
        CpuState { reg_y: result, ..self }.with_zero_n_negative(result)
    }

    /// JMP. The absolute form (which the table lists without a mode) reads
    /// its target at the program counter. The indirect form reads there the
    /// address of its target; when that address is the last byte of a page,
    /// the high byte of the target comes from the first byte of the same
    /// page, as on the real processor.
    #[verifier::opaque]
    pub open spec fn jmp(self, mode: AddressingMode) -> CpuState {
        match mode {
            AddressingMode::NoneAddressing => {
                let target = self.read_u16(self.program_counter);
                CpuState { program_counter: target.0, ..target.1 }
            },
            AddressingMode::Indirect => {
                let addr = self.read_u16(self.program_counter);
                let target = if addr.0 % 256 == 255 {
                    let low = addr.1.read(addr.0);
                    let high = low.1.read((addr.0 - 255) as u16);
                    (spec_word(low.0, high.0), high.1)
                } else {
                    addr.1.read_u16(addr.0)
                };
                CpuState { program_counter: target.0, ..target.1 }
            },
            _ => self.raise(Fault::UnsupportedMode(mode)),
        }
    }

    /// JSR: pushes the address of the last byte of the instruction, then
    /// jumps.
    #[verifier::opaque]
    pub open spec fn jsr(self) -> CpuState {
        let pushed = self.stack_push_u16(self.program_counter.wrapping_add(1));
        let target = pushed.read_u16(pushed.program_counter);
        CpuState { program_counter: target.0, ..target.1 }
    }

    #[verifier::opaque]
    pub open spec fn lda(self, mode: AddressingMode) -> CpuState {
        let m = self.operand(mode);
        CpuState { reg_a: m.0, ..m.1 }.with_zero_n_negative(m.0)
    }

    #[verifier::opaque]
    pub open spec fn ldx(self, mode: AddressingMode) -> CpuState {
        let m = self.operand(mode);
        CpuState { reg_x: m.0, ..m.1 }.with_zero_n_negative(m.0)
    }

    #[verifier::opaque]
    pub open spec fn ldy(self, mode: AddressingMode) -> CpuState {
        let m = self.operand(mode);
        CpuState { reg_y: m.0, ..m.1 }.with_zero_n_negative(m.0)
    }

    #[verifier::opaque]
    pub open spec fn pha(self) -> CpuState {
        self.stack_push(self.reg_a)
    }

    #[verifier::opaque]
    pub open spec fn php(self) -> CpuState {
        self.stack_push(self.status.spec_pushed())
    }

    #[verifier::opaque]
    pub open spec fn pla(self) -> CpuState {
        let m = self.stack_pop();
        CpuState { reg_a: m.0, ..m.1 }.with_zero_n_negative(m.0)
    }

    #[verifier::opaque]
    pub open spec fn plp(self) -> CpuState {
        let m = self.stack_pop();
        CpuState { status: CpuFlags::spec_pulled(m.0), ..m.1 }
    }

    #[verifier::opaque]
    pub open spec fn rti(self) -> CpuState {
        let m = self.stack_pop();
        let target = CpuState { status: CpuFlags::spec_pulled(m.0), ..m.1 }.stack_pop_u16();
        CpuState { program_counter: target.0, ..target.1 }
    }

    /// RTS: pulls an address and resumes after it.
    #[verifier::opaque]
    pub open spec fn rts(self) -> CpuState {
        let target = self.stack_pop_u16();
        CpuState { program_counter: target.0.wrapping_add(1), ..target.1 }
    }

    #[verifier::opaque]
    pub open spec fn sta(self, mode: AddressingMode) -> CpuState {
        let a = self.operand_address(mode);
        a.1.write(a.0, a.1.reg_a)
    }

    #[verifier::opaque]
    pub open spec fn stx(self, mode: AddressingMode) -> CpuState {
        let a = self.operand_address(mode);
        a.1.write(a.0, a.1.reg_x)
    }

    #[verifier::opaque]
    pub open spec fn sty(self, mode: AddressingMode) -> CpuState {
        let a = self.operand_address(mode);
        a.1.write(a.0, a.1.reg_y)
    }

    pub open spec fn tax(self) -> CpuState {
        CpuState { reg_x: self.reg_a, ..self }.with_zero_n_negative(self.reg_a)
    }

    pub open spec fn tay(self) -> CpuState {
        CpuState { reg_y: self.reg_a, ..self }.with_zero_n_negative(self.reg_a)
    }

    pub open spec fn tsx(self) -> CpuState {
        CpuState { reg_x: self.stack_pointer, ..self }.with_zero_n_negative(self.stack_pointer)
    }

    pub open spec fn txa(self) -> CpuState {
        CpuState { reg_a: self.reg_x, ..self }.with_zero_n_negative(self.reg_x)
    }

    pub open spec fn txs(self) -> CpuState {
        CpuState { stack_pointer: self.reg_x, ..self }
    }

    pub open spec fn tya(self) -> CpuState {
        CpuState { reg_a: self.reg_y, ..self }.with_zero_n_negative(self.reg_y)
    }

    /// ALR: AND, then LSR on the accumulator.
    #[verifier::opaque]
    pub open spec fn alr(self, mode: AddressingMode) -> CpuState {
        let m = self.operand(mode);
        let r = spec_and_shift_right(m.1.reg_a, m.0, m.1.status);
        CpuState { reg_a: r.0, status: r.1, ..m.1 }
    }

    /// ANC: AND, then Carry takes the Negative flag.
    #[verifier::opaque]
    pub open spec fn anc(self, mode: AddressingMode) -> CpuState {
        let m = self.operand(mode);
        let r = spec_and_carry(m.1.reg_a, m.0, m.1.status);
        CpuState { reg_a: r.0, status: r.1, ..m.1 }
    }

    /// ARR: AND, then ROR on the accumulator, with its own Carry and
    /// Overflow.
    #[verifier::opaque]
    pub open spec fn arr(self, mode: AddressingMode) -> CpuState {
        let m = self.operand(mode);
        let r = spec_and_rotate_right(m.1.reg_a, m.0, m.1.status);
        CpuState { reg_a: r.0, status: r.1, ..m.1 }
    }

    /// AXS: A AND X is compared with the operand, and their difference
    /// goes to X.
    #[verifier::opaque]
    pub open spec fn axs(self, mode: AddressingMode) -> CpuState {
        let m = self.operand(mode);
        let x_and_a = m.1.reg_x & m.1.reg_a;
        CpuState {
            reg_x: x_and_a.wrapping_sub(m.0),
            status: spec_compare(x_and_a, m.0, m.1.status),
            ..m.1
        }
    }

    /// LAX: LDA, then TAX.
    #[verifier::opaque]
    pub open spec fn lax(self, mode: AddressingMode) -> CpuState {
        let m = self.operand(mode);
        CpuState { reg_a: m.0, reg_x: m.0, ..m.1 }.with_zero_n_negative(m.0)
    }

    /// SAX: stores A AND X.
    #[verifier::opaque]
    pub open spec fn sax(self, mode: AddressingMode) -> CpuState {
        let a = self.operand_address(mode);
        a.1.write(a.0, a.1.reg_a & a.1.reg_x)
    }

    /// DCP: DEC, then CMP with the decremented value.
    #[verifier::opaque]
    pub open spec fn dcp(self, mode: AddressingMode) -> CpuState {
        let a = self.operand_address(mode);
        let m = a.1.read(a.0);
        let data = m.0.wrapping_sub(1);
        let w = m.1.write(a.0, data);
        CpuState { status: spec_compare(w.reg_a, data, w.status), ..w }
    }

    /// ISB: INC, then SBC with the incremented value.
    #[verifier::opaque]
    pub open spec fn isb(self, mode: AddressingMode) -> CpuState {
        let m = self.inc(mode);
        let r = spec_subtract_with_carry(m.1.reg_a, m.0, m.1.status);
        CpuState { reg_a: r.0, status: r.1, ..m.1 }
    }

    /// RLA: ROL, then AND with the rotated value.
    #[verifier::opaque]
    pub open spec fn rla(self, mode: AddressingMode) -> CpuState {
        let m = self.rol(mode);
        let result = m.1.reg_a & m.0;
        CpuState { reg_a: result, ..m.1 }.with_zero_n_negative(result)
    }

    /// RRA: ROR, then ADC with the rotated value.
    #[verifier::opaque]
    pub open spec fn rra(self, mode: AddressingMode) -> CpuState {
        let m = self.ror(mode);
        let r = spec_add_with_carry(m.1.reg_a, m.0, m.1.status);
        CpuState { reg_a: r.0, status: r.1, ..m.1 }
    }

    /// SLO: ASL, then ORA with the shifted value.
    #[verifier::opaque]
    pub open spec fn slo(self, mode: AddressingMode) -> CpuState {
        let m = self.asl(mode);
        let result = m.1.reg_a | m.0;
        CpuState { reg_a: result, ..m.1 }.with_zero_n_negative(result)
    }

    /// SRE: LSR, then EOR with the shifted value.
    #[verifier::opaque]
    pub open spec fn sre(self, mode: AddressingMode) -> CpuState {
        let m = self.lsr(mode);
        let result = m.1.reg_a ^ m.0;
        CpuState { reg_a: result, ..m.1 }.with_zero_n_negative(result)
    }

    /// NOP, in all its forms: those with an operand in memory read it.
    #[verifier::opaque]
    pub open spec fn nop(self, mode: AddressingMode) -> CpuState {
        match mode {
            AddressingMode::Immediate => self,
            AddressingMode::NoneAddressing => self,
            _ => self.operand(mode).1,
        }
    }

    /// LXA: LDA, then TAX.
    #[verifier::opaque]
    pub open spec fn lxa(self, mode: AddressingMode) -> CpuState {
        self.lda(mode).tax()
    }

    /// XAA: TXA, then AND.
    #[verifier::opaque]
    pub open spec fn xaa(self, mode: AddressingMode) -> CpuState {
        self.txa().and(mode)
    }

    /// LAS: the operand AND the stack pointer goes to A, X and the stack
    /// pointer.
    #[verifier::opaque]
    pub open spec fn las(self, mode: AddressingMode) -> CpuState {
        let m = self.operand(mode);
        let data = m.0 & m.1.stack_pointer;
        CpuState { reg_a: data, reg_x: data, stack_pointer: data, ..m.1 }.with_zero_n_negative(data)
    }

    /// The address that the undocumented store instructions use: the
    /// 16-bit value at the program counter plus an index register.
    pub open spec fn indexed_target(self, index: u8) -> (u16, CpuState) {
        let base = self.read_u16(self.program_counter);
        (base.0.wrapping_add(index as u16), base.1)
    }

    /// The high byte of `addr`, plus one.
    pub open spec fn high_plus_one(addr: u16) -> u8 {
        spec_high_byte(addr).wrapping_add(1)
    }

    /// TAS: the stack pointer becomes A AND X, and is stored ANDed with the
    /// high byte of the target plus one.
    #[verifier::opaque]
    pub open spec fn tas(self) -> CpuState {
        let stack_pointer = self.reg_a & self.reg_x;
        let t = CpuState { stack_pointer, ..self }.indexed_target(self.reg_y);
        t.1.write(t.0, Self::high_plus_one(t.0) & stack_pointer)
    }

    /// AHX: stores A AND X AND the high byte of the target.
    #[verifier::opaque]
    pub open spec fn ahx(self, mode: AddressingMode) -> CpuState {
        match mode {
            AddressingMode::Indirect_Y => {
                let pos = self.read(self.program_counter);
                let base = pos.1.read_u16(pos.0 as u16);
                let target = base.0.wrapping_add(self.reg_y as u16);
                base.1.write(target, self.reg_a & self.reg_x & spec_high_byte(target))
            },
            AddressingMode::Absolute_Y => {
                let t = self.indexed_target(self.reg_y);
                t.1.write(t.0, self.reg_a & self.reg_x & spec_high_byte(t.0))
            },
            _ => self,
        }
    }

    /// SHX: stores X AND the high byte of the target plus one.
    #[verifier::opaque]
    pub open spec fn shx(self) -> CpuState {
        let t = self.indexed_target(self.reg_y);
        t.1.write(t.0, self.reg_x & Self::high_plus_one(t.0))
    }

    /// SHY: stores Y AND the high byte of the target plus one.
    #[verifier::opaque]
    pub open spec fn shy(self) -> CpuState {
        let t = self.indexed_target(self.reg_x);
        t.1.write(t.0, self.reg_y & Self::high_plus_one(t.0))
    }

    /// What an arithmetic, logic or compare instruction does.
    #[verifier::opaque]
    pub open spec fn execute_arithmetic(self, opcode: OpCode) -> CpuState {
        let mode = opcode.mode;
        match opcode.mnemonic {
            Mnemonic::ADC => self.adc(mode),
            Mnemonic::SBC => self.sbc(mode),
            Mnemonic::AND => self.and(mode),
            Mnemonic::EOR => self.eor(mode),
            Mnemonic::ORA => self.ora(mode),
            Mnemonic::BIT => self.bit(mode),
            Mnemonic::CMP => self.compare(mode, self.reg_a),
            Mnemonic::CPX => self.compare(mode, self.reg_x),
            Mnemonic::CPY => self.compare(mode, self.reg_y),
            _ => self,
        }
    }

    /// What a shift, rotate, increment or decrement instruction does.
    #[verifier::opaque]
    pub open spec fn execute_shift(self, opcode: OpCode) -> CpuState {
        let mode = opcode.mode;
        match opcode.mnemonic {
            Mnemonic::ASL => self.asl(mode).1,
            Mnemonic::LSR => self.lsr(mode).1,
            Mnemonic::ROL => self.rol(mode).1,
            Mnemonic::ROR => self.ror(mode).1,
            Mnemonic::INC => self.inc(mode).1,
            Mnemonic::DEC => self.dec(mode),
            Mnemonic::INX => self.inx(),
            Mnemonic::INY => self.iny(),
            Mnemonic::DEX => self.dex(),
            Mnemonic::DEY => self.dey(),
            _ => self,
        }
    }

    /// What a branch instruction does.
    #[verifier::opaque]
    pub open spec fn execute_branch(self, opcode: OpCode) -> CpuState {
        let mode = opcode.mode;
        match opcode.mnemonic {
            Mnemonic::BCC => self.branch(!self.status.spec_contains(CARRY)),
            Mnemonic::BCS => self.branch(self.status.spec_contains(CARRY)),
            Mnemonic::BEQ => self.branch(self.status.spec_contains(ZERO)),
            Mnemonic::BMI => self.branch(self.status.spec_contains(NEGATIV)),
            Mnemonic::BNE => self.branch(!self.status.spec_contains(ZERO)),
            Mnemonic::BPL => self.branch(!self.status.spec_contains(NEGATIV)),
            Mnemonic::BVC => self.branch(!self.status.spec_contains(OVERFLOW)),
            Mnemonic::BVS => self.branch(self.status.spec_contains(OVERFLOW)),
            _ => self,
        }
    }

    /// What an instruction that sets or clears a flag, or does nothing does.
    #[verifier::opaque]
    pub open spec fn execute_flag(self, opcode: OpCode) -> CpuState {
        let mode = opcode.mode;
        match opcode.mnemonic {
            Mnemonic::CLC => self.with_flag(CARRY, false),
            Mnemonic::CLD => self.with_flag(DECIMAL_MODE, false),
            Mnemonic::CLI => self.with_flag(INTERRUPT_DISABLE, false),
            Mnemonic::CLV => self.with_flag(OVERFLOW, false),
            Mnemonic::SEC => self.with_flag(CARRY, true),
            Mnemonic::SED => self.with_flag(DECIMAL_MODE, true),
            Mnemonic::SEI => self.with_flag(INTERRUPT_DISABLE, true),
            Mnemonic::NOP => self.nop(mode),
            Mnemonic::BRK => self,
            _ => self,
        }
    }

    /// What a jump, return or stack instruction does.
    #[verifier::opaque]
    pub open spec fn execute_jump(self, opcode: OpCode) -> CpuState {
        let mode = opcode.mode;
        match opcode.mnemonic {
            Mnemonic::JMP => self.jmp(mode),
            Mnemonic::JSR => self.jsr(),
            Mnemonic::RTI => self.rti(),
            Mnemonic::RTS => self.rts(),
            Mnemonic::PHA => self.pha(),
            Mnemonic::PHP => self.php(),
            Mnemonic::PLA => self.pla(),
            Mnemonic::PLP => self.plp(),
            _ => self,
        }
    }

    /// What a load, store or register-transfer instruction does.
    #[verifier::opaque]
    pub open spec fn execute_transfer(self, opcode: OpCode) -> CpuState {
        let mode = opcode.mode;
        match opcode.mnemonic {
            Mnemonic::LDA => self.lda(mode),
            Mnemonic::LDX => self.ldx(mode),
            Mnemonic::LDY => self.ldy(mode),
            Mnemonic::STA => self.sta(mode),
            Mnemonic::STX => self.stx(mode),
            Mnemonic::STY => self.sty(mode),
            Mnemonic::TAX => self.tax(),
            Mnemonic::TAY => self.tay(),
            Mnemonic::TSX => self.tsx(),
            Mnemonic::TXA => self.txa(),
            Mnemonic::TXS => self.txs(),
            Mnemonic::TYA => self.tya(),
            _ => self,
        }
    }

    /// What an undocumented instruction that combines two documented ones does.
    #[verifier::opaque]
    pub open spec fn execute_combined(self, opcode: OpCode) -> CpuState {
        let mode = opcode.mode;
        match opcode.mnemonic {
            Mnemonic::DCP => self.dcp(mode),
            Mnemonic::ISB => self.isb(mode),
            Mnemonic::RLA => self.rla(mode),
            Mnemonic::RRA => self.rra(mode),
            Mnemonic::SLO => self.slo(mode),
            Mnemonic::SRE => self.sre(mode),
            Mnemonic::LAX => self.lax(mode),
            Mnemonic::SAX => self.sax(mode),
            Mnemonic::LXA => self.lxa(mode),
            Mnemonic::XAA => self.xaa(mode),
            _ => self,
        }
    }

    /// What one of the remaining undocumented instructions does.
    #[verifier::opaque]
    pub open spec fn execute_unstable(self, opcode: OpCode) -> CpuState {
        let mode = opcode.mode;
        match opcode.mnemonic {
            Mnemonic::AHX => self.ahx(mode),
            Mnemonic::ALR => self.alr(mode),
            Mnemonic::ANC => self.anc(mode),
            Mnemonic::ARR => self.arr(mode),
            Mnemonic::AXS => self.axs(mode),
            Mnemonic::LAS => self.las(mode),
            Mnemonic::SHX => self.shx(),
            Mnemonic::SHY => self.shy(),
            Mnemonic::TAS => self.tas(),
            _ => self,
        }
    }

    /// What the instruction `opcode` does, with the program counter on its
    /// first operand byte. `BRK` is not executed: it ends the run.
    pub open spec fn execute(self, opcode: OpCode) -> CpuState {
        if is_arithmetic(opcode.mnemonic) {
            self.execute_arithmetic(opcode)
        } else if is_shift(opcode.mnemonic) {
            self.execute_shift(opcode)
        } else if is_branch(opcode.mnemonic) {
            self.execute_branch(opcode)
        } else if is_flag(opcode.mnemonic) {
            self.execute_flag(opcode)
        } else if is_jump(opcode.mnemonic) {
            self.execute_jump(opcode)
        } else if is_transfer(opcode.mnemonic) {
            self.execute_transfer(opcode)
        } else if is_combined(opcode.mnemonic) {
            self.execute_combined(opcode)
        } else {
            self.execute_unstable(opcode)
        }
    }

    /// The state after the opcode byte was fetched: the byte, and the
    /// program counter on the byte after it.
    pub open spec fn fetch(self) -> (u8, CpuState) {
        let code = self.read(self.program_counter);
        (code.0, CpuState { program_counter: self.program_counter.wrapping_add(1), ..code.1 })
    }

    /// The state after the instruction `opcode`, fetched already, ran: it
    /// is executed, and unless it moved the program counter itself, the
    /// counter goes past its operand bytes.
    pub open spec fn perform(self, opcode: OpCode) -> CpuState {
        let done = self.execute(opcode);
        if done.program_counter == self.program_counter {
            CpuState {
                program_counter: done.program_counter.wrapping_add((opcode.len - 1) as u16),
                ..done
            }
        } else {
            done
        }
    }

    /// One step of the machine, and how it ended.
    ///
    /// A machine with a defect on record has halted and stays as it is.
    /// Otherwise the opcode byte is fetched and looked up; a byte without
    /// an entry is a defect, and halts the machine there. `BRK` ends the
    /// run there. Any other instruction is
    /// performed; if that met no defect, the bus then lets the
    /// instruction's cycles pass, and the step reports whether the pending
    /// interrupt of the graphics unit rose meanwhile.
    #[verifier::opaque]
    pub open spec fn step(self) -> (CpuState, StepOutcome) {
        if self.fault is Some {
            (self, StepOutcome::Fault(self.fault->0))
        } else {
            let f = self.fetch();
            if f.1.fault is Some {
                (f.1, StepOutcome::Fault(f.1.fault->0))
            } else {
                match spec_lookup(f.0) {
                    None => (
                        f.1.raise(Fault::UnknownOpcode(f.0)),
                        StepOutcome::Fault(Fault::UnknownOpcode(f.0)),
                    ),
                    Some(opcode) => {
                        if opcode.mnemonic is BRK {
                            (f.1, StepOutcome::Break)
                        } else {
                            let done = f.1.perform(opcode);
                            if done.fault is Some {
                                (done, StepOutcome::Fault(done.fault->0))
                            } else {
                                (
                                    CpuState { bus: done.bus.tick(opcode.cycles), ..done },
                                    if done.bus.frame_due(opcode.cycles) {
                                        StepOutcome::FrameReady
                                    } else {
                                        StepOutcome::Continue
                                    },
                                )
                            }
                        }
                    },
                }
            }
        }
    }
}

} // verus!
