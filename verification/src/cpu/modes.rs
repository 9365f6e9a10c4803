//! The table gives every instruction a mode that it can work with: an
//! instruction taken from the table never asks for an operand in a mode
//! that has none.

use vstd::prelude::*;
use crate::cpu::state::{
    is_arithmetic,
    is_branch,
    is_combined,
    is_flag,
    is_jump,
    is_shift,
    is_transfer,
    CpuState,
};
use crate::cpu::{AddressingMode, Fault};
use crate::opcodes::{spec_lookup, Mnemonic, OpCode};

verus! {

/// The mode names an operand: a byte after the opcode, or a place in
/// memory.
pub open spec fn has_operand(mode: AddressingMode) -> bool {
    !(mode is Indirect) && !(mode is NoneAddressing)
}

/// The instruction can work with the mode. A jump takes its target
/// directly or indirectly. Shifts and rotates work on the accumulator or
/// on an operand in memory. `NOP` and the instructions that touch only
/// registers, flags or the stack take any mode, and so does `AHX`, which
/// does nothing in a mode it does not know. Every other instruction needs
/// an operand.
pub open spec fn mode_fits(mnemonic: Mnemonic, mode: AddressingMode) -> bool {
    match mnemonic {
        Mnemonic::JMP => mode is NoneAddressing || mode is Indirect,
        Mnemonic::ASL | Mnemonic::LSR | Mnemonic::ROL | Mnemonic::ROR | Mnemonic::NOP => !(mode
            is Indirect),
        Mnemonic::ADC
        | Mnemonic::AND
        | Mnemonic::BIT
        | Mnemonic::CMP
        | Mnemonic::CPX
        | Mnemonic::CPY
        | Mnemonic::DEC
        | Mnemonic::EOR
        | Mnemonic::INC
        | Mnemonic::LDA
        | Mnemonic::LDX
        | Mnemonic::LDY
        | Mnemonic::ORA
        | Mnemonic::SBC
        | Mnemonic::STA
        | Mnemonic::STX
        | Mnemonic::STY
        | Mnemonic::ALR
        | Mnemonic::ANC
        | Mnemonic::ARR
        | Mnemonic::AXS
        | Mnemonic::DCP
        | Mnemonic::ISB
        | Mnemonic::LAS
        | Mnemonic::LAX
        | Mnemonic::LXA
        | Mnemonic::RLA
        | Mnemonic::RRA
        | Mnemonic::SAX
        | Mnemonic::SLO
        | Mnemonic::SRE
        | Mnemonic::XAA => has_operand(mode),
        _ => true,
    }
}

/// No unsupported mode is on record.
pub open spec fn mode_supported(s: CpuState) -> bool {
    !(s.fault matches Some(Fault::UnsupportedMode(_)))
}

/// Every entry of the table pairs its instruction with a mode that fits.
pub proof fn lemma_table_modes_fit(code: u8)
    ensures
        spec_lookup(code) matches Some(opcode) ==> mode_fits(opcode.mnemonic, opcode.mode),
{
    reveal(spec_lookup);
}

proof fn lemma_arithmetic_supported(s: CpuState, opcode: OpCode)
    requires
        mode_supported(s),
        is_arithmetic(opcode.mnemonic),
        mode_fits(opcode.mnemonic, opcode.mode),
    ensures
        mode_supported(s.execute_arithmetic(opcode)),
{
    reveal(CpuState::execute_arithmetic);
    reveal(CpuState::adc);
    reveal(CpuState::sbc);
    reveal(CpuState::and);
    reveal(CpuState::eor);
    reveal(CpuState::ora);
    reveal(CpuState::bit);
    reveal(CpuState::compare);
}

/// Reads and writes record no unsupported mode, and neither does finding
/// an operand that the mode has.
proof fn lemma_operand_supported(s: CpuState, mode: AddressingMode, addr: u16, data: u8)
    requires
        mode_supported(s),
    ensures
        mode_supported(s.read(addr).1),
        mode_supported(s.write(addr, data)),
        has_operand(mode) ==> mode_supported(s.operand_address(mode).1),
        has_operand(mode) ==> mode_supported(s.operand(mode).1),
{
}

proof fn lemma_asl_supported(s: CpuState, mode: AddressingMode)
    requires
        mode_supported(s),
        !(mode is Indirect),
    ensures
        mode_supported(s.asl(mode).1),
{
    reveal(CpuState::asl);
    lemma_operand_supported(s, mode, 0, 0);
}

proof fn lemma_lsr_supported(s: CpuState, mode: AddressingMode)
    requires
        mode_supported(s),
        !(mode is Indirect),
    ensures
        mode_supported(s.lsr(mode).1),
{
    reveal(CpuState::lsr);
    lemma_operand_supported(s, mode, 0, 0);
}

proof fn lemma_rol_supported(s: CpuState, mode: AddressingMode)
    requires
        mode_supported(s),
        !(mode is Indirect),
    ensures
        mode_supported(s.rol(mode).1),
{
    reveal(CpuState::rol);
    lemma_operand_supported(s, mode, 0, 0);
}

proof fn lemma_ror_supported(s: CpuState, mode: AddressingMode)
    requires
        mode_supported(s),
        !(mode is Indirect),
    ensures
        mode_supported(s.ror(mode).1),
{
    reveal(CpuState::ror);
    lemma_operand_supported(s, mode, 0, 0);
}

proof fn lemma_inc_dec_supported(s: CpuState, mode: AddressingMode)
    requires
        mode_supported(s),
        has_operand(mode),
    ensures
        mode_supported(s.inc(mode).1),
        mode_supported(s.dec(mode)),
{
    reveal(CpuState::inc);
    reveal(CpuState::dec);
    lemma_operand_supported(s, mode, 0, 0);
}

proof fn lemma_shift_supported(s: CpuState, opcode: OpCode)
    requires
        mode_supported(s),
        is_shift(opcode.mnemonic),
        mode_fits(opcode.mnemonic, opcode.mode),
    ensures
        mode_supported(s.execute_shift(opcode)),
{
    reveal(CpuState::execute_shift);
    let mode = opcode.mode;
    match opcode.mnemonic {
        Mnemonic::ASL => lemma_asl_supported(s, mode),
        Mnemonic::LSR => lemma_lsr_supported(s, mode),
        Mnemonic::ROL => lemma_rol_supported(s, mode),
        Mnemonic::ROR => lemma_ror_supported(s, mode),
        Mnemonic::INC => lemma_inc_dec_supported(s, mode),
        Mnemonic::DEC => lemma_inc_dec_supported(s, mode),
        _ => {},
    }
}

proof fn lemma_branch_supported(s: CpuState, opcode: OpCode)
    requires
        mode_supported(s),
        is_branch(opcode.mnemonic),
    ensures
        mode_supported(s.execute_branch(opcode)),
{
    reveal(CpuState::execute_branch);
    reveal(CpuState::branch);
}

proof fn lemma_flag_supported(s: CpuState, opcode: OpCode)
    requires
        mode_supported(s),
        is_flag(opcode.mnemonic),
        mode_fits(opcode.mnemonic, opcode.mode),
    ensures
        mode_supported(s.execute_flag(opcode)),
{
    reveal(CpuState::execute_flag);
    reveal(CpuState::nop);
}

proof fn lemma_jump_supported(s: CpuState, opcode: OpCode)
    requires
        mode_supported(s),
        is_jump(opcode.mnemonic),
        mode_fits(opcode.mnemonic, opcode.mode),
    ensures
        mode_supported(s.execute_jump(opcode)),
{
    reveal(CpuState::execute_jump);
    reveal(CpuState::jmp);
    reveal(CpuState::jsr);
    reveal(CpuState::rti);
    reveal(CpuState::rts);
    reveal(CpuState::pha);
    reveal(CpuState::php);
    reveal(CpuState::pla);
    reveal(CpuState::plp);
}

proof fn lemma_transfer_supported(s: CpuState, opcode: OpCode)
    requires
        mode_supported(s),
        is_transfer(opcode.mnemonic),
        mode_fits(opcode.mnemonic, opcode.mode),
    ensures
        mode_supported(s.execute_transfer(opcode)),
{
    reveal(CpuState::execute_transfer);
    reveal(CpuState::lda);
    reveal(CpuState::ldx);
    reveal(CpuState::ldy);
    reveal(CpuState::sta);
    reveal(CpuState::stx);
    reveal(CpuState::sty);
}

proof fn lemma_read_modify_supported(s: CpuState, mode: AddressingMode)
    requires
        mode_supported(s),
        has_operand(mode),
    ensures
        mode_supported(s.dcp(mode)),
        mode_supported(s.isb(mode)),
        mode_supported(s.rla(mode)),
        mode_supported(s.rra(mode)),
        mode_supported(s.slo(mode)),
        mode_supported(s.sre(mode)),
{
    reveal(CpuState::dcp);
    reveal(CpuState::isb);
    reveal(CpuState::rla);
    reveal(CpuState::rra);
    reveal(CpuState::slo);
    reveal(CpuState::sre);
    lemma_operand_supported(s, mode, 0, 0);
    lemma_inc_dec_supported(s, mode);
    lemma_asl_supported(s, mode);
    lemma_lsr_supported(s, mode);
    lemma_rol_supported(s, mode);
    lemma_ror_supported(s, mode);
}

proof fn lemma_load_store_supported(s: CpuState, mode: AddressingMode)
    requires
        mode_supported(s),
        has_operand(mode),
    ensures
        mode_supported(s.lax(mode)),
        mode_supported(s.sax(mode)),
        mode_supported(s.lxa(mode)),
        mode_supported(s.xaa(mode)),
{
    reveal(CpuState::lax);
    reveal(CpuState::sax);
    reveal(CpuState::lxa);
    reveal(CpuState::lda);
    reveal(CpuState::xaa);
    reveal(CpuState::and);
    lemma_operand_supported(s, mode, 0, 0);
    lemma_operand_supported(s.txa(), mode, 0, 0);
}

proof fn lemma_combined_supported(s: CpuState, opcode: OpCode)
    requires
        mode_supported(s),
        is_combined(opcode.mnemonic),
        mode_fits(opcode.mnemonic, opcode.mode),
    ensures
        mode_supported(s.execute_combined(opcode)),
{
    reveal(CpuState::execute_combined);
    lemma_read_modify_supported(s, opcode.mode);
    lemma_load_store_supported(s, opcode.mode);
}

proof fn lemma_unstable_supported(s: CpuState, opcode: OpCode)
    requires
        mode_supported(s),
        mode_fits(opcode.mnemonic, opcode.mode),
    ensures
        mode_supported(s.execute_unstable(opcode)),
{
    reveal(CpuState::execute_unstable);
    reveal(CpuState::ahx);
    reveal(CpuState::alr);
    reveal(CpuState::anc);
    reveal(CpuState::arr);
    reveal(CpuState::axs);
    reveal(CpuState::las);
    reveal(CpuState::shx);
    reveal(CpuState::shy);
    reveal(CpuState::tas);
}

/// An instruction whose mode fits never asks for an operand that its mode
/// does not have.
pub proof fn law_fitting_mode_is_supported(s: CpuState, opcode: OpCode)
    requires
        mode_supported(s),
        mode_fits(opcode.mnemonic, opcode.mode),
    ensures
        mode_supported(s.execute(opcode)),
{
    if is_arithmetic(opcode.mnemonic) {
        lemma_arithmetic_supported(s, opcode);
    } else if is_shift(opcode.mnemonic) {
        lemma_shift_supported(s, opcode);
    } else if is_branch(opcode.mnemonic) {
        lemma_branch_supported(s, opcode);
    } else if is_flag(opcode.mnemonic) {
        lemma_flag_supported(s, opcode);
    } else if is_jump(opcode.mnemonic) {
        lemma_jump_supported(s, opcode);
    } else if is_transfer(opcode.mnemonic) {
        lemma_transfer_supported(s, opcode);
    } else if is_combined(opcode.mnemonic) {
        lemma_combined_supported(s, opcode);
    } else {
        lemma_unstable_supported(s, opcode);
    }
}

/// A step never ends in an unsupported mode: the defects that a step can
/// meet are a forbidden read or write and a byte without an instruction.
pub proof fn law_step_never_meets_unsupported_mode(s: CpuState)
    requires
        mode_supported(s),
    ensures
        mode_supported(s.step().0),
{
    reveal(CpuState::step);
    let f = s.fetch();
    if s.fault is None && f.1.fault is None {
        match spec_lookup(f.0) {
            None => {},
            Some(opcode) => {
                lemma_table_modes_fit(f.0);
                law_fitting_mode_is_supported(f.1, opcode);
            },
        }
    }
}

} // verus!
