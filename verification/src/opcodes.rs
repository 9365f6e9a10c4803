//! The instruction table: what each opcode byte stands for.

use vstd::prelude::*;
use crate::cpu::AddressingMode;

verus! {

/// The kinds of instruction. The documented ones come first; those after
/// `TYA` are the undocumented ones that programs rely on.
#[derive(Clone, Copy, Debug, PartialEq, Eq, Structural)]
pub enum Mnemonic {
    ADC,
    AND,
    ASL,
    BCC,
    BCS,
    BEQ,
    BIT,
    BMI,
    BNE,
    BPL,
    BRK,
    BVC,
    BVS,
    CLC,
    CLD,
    CLI,
    CLV,
    CMP,
    CPX,
    CPY,
    DEC,
    DEX,
    DEY,
    EOR,
    INC,
    INX,
    INY,
    JMP,
    JSR,
    LDA,
    LDX,
    LDY,
    LSR,
    NOP,
    ORA,
    PHA,
    PHP,
    PLA,
    PLP,
    ROL,
    ROR,
    RTI,
    RTS,
    SBC,
    SEC,
    SED,
    SEI,
    STA,
    STX,
    STY,
    TAX,
    TAY,
    TSX,
    TXA,
    TXS,
    TYA,
    AHX,
    ALR,
    ANC,
    ARR,
    AXS,
    DCP,
    ISB,
    LAS,
    LAX,
    LXA,
    RLA,
    RRA,
    SAX,
    SHX,
    SHY,
    SLO,
    SRE,
    TAS,
    XAA,
}

/// One entry of the instruction table.
#[derive(Clone, Copy, Debug, PartialEq, Eq, Structural)]
pub struct OpCode {
    /// The opcode byte.
    pub code: u8,
    pub mnemonic: Mnemonic,
    /// Length of the instruction in bytes, opcode byte included.
    pub len: u8,
    /// Base cost in CPU cycles.
    pub cycles: u8,
    pub mode: AddressingMode,
}

impl OpCode {
    pub open spec fn spec_new(
        code: u8,
        mnemonic: Mnemonic,
        len: u8,
        cycles: u8,
        mode: AddressingMode,
    ) -> OpCode {
        OpCode { code, mnemonic, len, cycles, mode }
    }

    pub fn new(code: u8, mnemonic: Mnemonic, len: u8, cycles: u8, mode: AddressingMode) -> (r:
        OpCode)
        ensures
            r == Self::spec_new(code, mnemonic, len, cycles, mode),
    {
        OpCode { code, mnemonic, len, cycles, mode }
    }
}

/// An entry of the table, as a lookup returns it.
pub open spec fn spec_entry(
    code: u8,
    mnemonic: Mnemonic,
    len: u8,
    cycles: u8,
    mode: AddressingMode,
) -> Option<OpCode> {
    Some(OpCode::spec_new(code, mnemonic, len, cycles, mode))
}

fn entry(code: u8, mnemonic: Mnemonic, len: u8, cycles: u8, mode: AddressingMode) -> (r: Option<
    OpCode,
>)
    ensures
        r == spec_entry(code, mnemonic, len, cycles, mode),
{
    Some(OpCode::new(code, mnemonic, len, cycles, mode))
}

/// The instruction table. Twelve bytes stand for no instruction: on the
/// real processor they lock it up.
#[verifier::opaque]
pub open spec fn spec_lookup(code: u8) -> Option<OpCode> {
    match code {
        0x00 => spec_entry(0x00, Mnemonic::BRK, 1, 7, AddressingMode::NoneAddressing),
        0x01 => spec_entry(0x01, Mnemonic::ORA, 2, 6, AddressingMode::Indirect_X),
        0x03 => spec_entry(0x03, Mnemonic::SLO, 2, 8, AddressingMode::Indirect_X),
        0x04 => spec_entry(0x04, Mnemonic::NOP, 2, 3, AddressingMode::ZeroPage),
        0x05 => spec_entry(0x05, Mnemonic::ORA, 2, 3, AddressingMode::ZeroPage),
        0x06 => spec_entry(0x06, Mnemonic::ASL, 2, 5, AddressingMode::ZeroPage),
        0x07 => spec_entry(0x07, Mnemonic::SLO, 2, 5, AddressingMode::ZeroPage),
        0x08 => spec_entry(0x08, Mnemonic::PHP, 1, 3, AddressingMode::NoneAddressing),
        0x09 => spec_entry(0x09, Mnemonic::ORA, 2, 2, AddressingMode::Immediate),
        0x0a => spec_entry(0x0a, Mnemonic::ASL, 1, 2, AddressingMode::NoneAddressing),
        0x0b => spec_entry(0x0b, Mnemonic::ANC, 2, 2, AddressingMode::Immediate),
        0x0c => spec_entry(0x0c, Mnemonic::NOP, 3, 4, AddressingMode::Absolute),
        0x0d => spec_entry(0x0d, Mnemonic::ORA, 3, 4, AddressingMode::Absolute),
        0x0e => spec_entry(0x0e, Mnemonic::ASL, 3, 6, AddressingMode::Absolute),
        0x0f => spec_entry(0x0f, Mnemonic::SLO, 3, 6, AddressingMode::Absolute),
        0x10 => spec_entry(0x10, Mnemonic::BPL, 2, 2, AddressingMode::NoneAddressing),
        0x11 => spec_entry(0x11, Mnemonic::ORA, 2, 5, AddressingMode::Indirect_Y),
        0x13 => spec_entry(0x13, Mnemonic::SLO, 2, 8, AddressingMode::Indirect_Y),
        0x14 => spec_entry(0x14, Mnemonic::NOP, 2, 4, AddressingMode::ZeroPage_X),
        0x15 => spec_entry(0x15, Mnemonic::ORA, 2, 4, AddressingMode::ZeroPage_X),
        0x16 => spec_entry(0x16, Mnemonic::ASL, 2, 6, AddressingMode::ZeroPage_X),
        0x17 => spec_entry(0x17, Mnemonic::SLO, 2, 6, AddressingMode::ZeroPage_X),
        0x18 => spec_entry(0x18, Mnemonic::CLC, 1, 2, AddressingMode::NoneAddressing),
        0x19 => spec_entry(0x19, Mnemonic::ORA, 3, 4, AddressingMode::Absolute_Y),
        0x1a => spec_entry(0x1a, Mnemonic::NOP, 1, 2, AddressingMode::NoneAddressing),
        0x1b => spec_entry(0x1b, Mnemonic::SLO, 3, 7, AddressingMode::Absolute_Y),
        0x1c => spec_entry(0x1c, Mnemonic::NOP, 3, 4, AddressingMode::Absolute_X),
        0x1d => spec_entry(0x1d, Mnemonic::ORA, 3, 4, AddressingMode::Absolute_X),
        0x1e => spec_entry(0x1e, Mnemonic::ASL, 3, 7, AddressingMode::Absolute_X),
        0x1f => spec_entry(0x1f, Mnemonic::SLO, 3, 7, AddressingMode::Absolute_X),
        0x20 => spec_entry(0x20, Mnemonic::JSR, 3, 6, AddressingMode::NoneAddressing),
        0x21 => spec_entry(0x21, Mnemonic::AND, 2, 6, AddressingMode::Indirect_X),
        0x23 => spec_entry(0x23, Mnemonic::RLA, 2, 8, AddressingMode::Indirect_X),
        0x24 => spec_entry(0x24, Mnemonic::BIT, 2, 3, AddressingMode::ZeroPage),
        0x25 => spec_entry(0x25, Mnemonic::AND, 2, 3, AddressingMode::ZeroPage),
        0x26 => spec_entry(0x26, Mnemonic::ROL, 2, 5, AddressingMode::ZeroPage),
        0x27 => spec_entry(0x27, Mnemonic::RLA, 2, 5, AddressingMode::ZeroPage),
        0x28 => spec_entry(0x28, Mnemonic::PLP, 1, 4, AddressingMode::NoneAddressing),
        0x29 => spec_entry(0x29, Mnemonic::AND, 2, 2, AddressingMode::Immediate),
        0x2a => spec_entry(0x2a, Mnemonic::ROL, 1, 2, AddressingMode::NoneAddressing),
        0x2b => spec_entry(0x2b, Mnemonic::ANC, 2, 2, AddressingMode::Immediate),
        0x2c => spec_entry(0x2c, Mnemonic::BIT, 3, 4, AddressingMode::Absolute),
        0x2d => spec_entry(0x2d, Mnemonic::AND, 3, 4, AddressingMode::Absolute),
        0x2e => spec_entry(0x2e, Mnemonic::ROL, 3, 6, AddressingMode::Absolute),
        0x2f => spec_entry(0x2f, Mnemonic::RLA, 3, 6, AddressingMode::Absolute),
        0x30 => spec_entry(0x30, Mnemonic::BMI, 2, 2, AddressingMode::NoneAddressing),
        0x31 => spec_entry(0x31, Mnemonic::AND, 2, 5, AddressingMode::Indirect_Y),
        0x33 => spec_entry(0x33, Mnemonic::RLA, 2, 8, AddressingMode::Indirect_Y),
        0x34 => spec_entry(0x34, Mnemonic::NOP, 2, 4, AddressingMode::ZeroPage_X),
        0x35 => spec_entry(0x35, Mnemonic::AND, 2, 4, AddressingMode::ZeroPage_X),
        0x36 => spec_entry(0x36, Mnemonic::ROL, 2, 6, AddressingMode::ZeroPage_X),
        0x37 => spec_entry(0x37, Mnemonic::RLA, 2, 6, AddressingMode::ZeroPage_X),
        0x38 => spec_entry(0x38, Mnemonic::SEC, 1, 2, AddressingMode::NoneAddressing),
        0x39 => spec_entry(0x39, Mnemonic::AND, 3, 4, AddressingMode::Absolute_Y),
        0x3a => spec_entry(0x3a, Mnemonic::NOP, 1, 2, AddressingMode::NoneAddressing),
        0x3b => spec_entry(0x3b, Mnemonic::RLA, 3, 7, AddressingMode::Absolute_Y),
        0x3c => spec_entry(0x3c, Mnemonic::NOP, 3, 4, AddressingMode::Absolute_X),
        0x3d => spec_entry(0x3d, Mnemonic::AND, 3, 4, AddressingMode::Absolute_X),
        0x3e => spec_entry(0x3e, Mnemonic::ROL, 3, 7, AddressingMode::Absolute_X),
        0x3f => spec_entry(0x3f, Mnemonic::RLA, 3, 7, AddressingMode::Absolute_X),
        0x40 => spec_entry(0x40, Mnemonic::RTI, 1, 6, AddressingMode::NoneAddressing),
        0x41 => spec_entry(0x41, Mnemonic::EOR, 2, 6, AddressingMode::Indirect_X),
        0x43 => spec_entry(0x43, Mnemonic::SRE, 2, 8, AddressingMode::Indirect_X),
        0x44 => spec_entry(0x44, Mnemonic::NOP, 2, 3, AddressingMode::ZeroPage),
        0x45 => spec_entry(0x45, Mnemonic::EOR, 2, 3, AddressingMode::ZeroPage),
        0x46 => spec_entry(0x46, Mnemonic::LSR, 2, 5, AddressingMode::ZeroPage),
        0x47 => spec_entry(0x47, Mnemonic::SRE, 2, 5, AddressingMode::ZeroPage),
        0x48 => spec_entry(0x48, Mnemonic::PHA, 1, 3, AddressingMode::NoneAddressing),
        0x49 => spec_entry(0x49, Mnemonic::EOR, 2, 2, AddressingMode::Immediate),
        0x4a => spec_entry(0x4a, Mnemonic::LSR, 1, 2, AddressingMode::NoneAddressing),
        0x4b => spec_entry(0x4b, Mnemonic::ALR, 2, 2, AddressingMode::Immediate),
        0x4c => spec_entry(0x4c, Mnemonic::JMP, 3, 3, AddressingMode::NoneAddressing),
        0x4d => spec_entry(0x4d, Mnemonic::EOR, 3, 4, AddressingMode::Absolute),
        0x4e => spec_entry(0x4e, Mnemonic::LSR, 3, 6, AddressingMode::Absolute),
        0x4f => spec_entry(0x4f, Mnemonic::SRE, 3, 6, AddressingMode::Absolute),
        0x50 => spec_entry(0x50, Mnemonic::BVC, 2, 2, AddressingMode::NoneAddressing),
        0x51 => spec_entry(0x51, Mnemonic::EOR, 2, 5, AddressingMode::Indirect_Y),
        0x53 => spec_entry(0x53, Mnemonic::SRE, 2, 8, AddressingMode::Indirect_Y),
        0x54 => spec_entry(0x54, Mnemonic::NOP, 2, 4, AddressingMode::ZeroPage_X),
        0x55 => spec_entry(0x55, Mnemonic::EOR, 2, 4, AddressingMode::ZeroPage_X),
        0x56 => spec_entry(0x56, Mnemonic::LSR, 2, 6, AddressingMode::ZeroPage_X),
        0x57 => spec_entry(0x57, Mnemonic::SRE, 2, 6, AddressingMode::ZeroPage_X),
        0x58 => spec_entry(0x58, Mnemonic::CLI, 1, 2, AddressingMode::NoneAddressing),
        0x59 => spec_entry(0x59, Mnemonic::EOR, 3, 4, AddressingMode::Absolute_Y),
        0x5a => spec_entry(0x5a, Mnemonic::NOP, 1, 2, AddressingMode::NoneAddressing),
        0x5b => spec_entry(0x5b, Mnemonic::SRE, 3, 7, AddressingMode::Absolute_Y),
        0x5c => spec_entry(0x5c, Mnemonic::NOP, 3, 4, AddressingMode::Absolute_X),
        0x5d => spec_entry(0x5d, Mnemonic::EOR, 3, 4, AddressingMode::Absolute_X),
        0x5e => spec_entry(0x5e, Mnemonic::LSR, 3, 7, AddressingMode::Absolute_X),
        0x5f => spec_entry(0x5f, Mnemonic::SRE, 3, 7, AddressingMode::Absolute_X),
        0x60 => spec_entry(0x60, Mnemonic::RTS, 1, 6, AddressingMode::NoneAddressing),
        0x61 => spec_entry(0x61, Mnemonic::ADC, 2, 6, AddressingMode::Indirect_X),
        0x63 => spec_entry(0x63, Mnemonic::RRA, 2, 8, AddressingMode::Indirect_X),
        0x64 => spec_entry(0x64, Mnemonic::NOP, 2, 3, AddressingMode::ZeroPage),
        0x65 => spec_entry(0x65, Mnemonic::ADC, 2, 3, AddressingMode::ZeroPage),
        0x66 => spec_entry(0x66, Mnemonic::ROR, 2, 5, AddressingMode::ZeroPage),
        0x67 => spec_entry(0x67, Mnemonic::RRA, 2, 5, AddressingMode::ZeroPage),
        0x68 => spec_entry(0x68, Mnemonic::PLA, 1, 4, AddressingMode::NoneAddressing),
        0x69 => spec_entry(0x69, Mnemonic::ADC, 2, 2, AddressingMode::Immediate),
        0x6a => spec_entry(0x6a, Mnemonic::ROR, 1, 2, AddressingMode::NoneAddressing),
        0x6b => spec_entry(0x6b, Mnemonic::ARR, 2, 2, AddressingMode::Immediate),
        0x6c => spec_entry(0x6c, Mnemonic::JMP, 3, 5, AddressingMode::Indirect),
        0x6d => spec_entry(0x6d, Mnemonic::ADC, 3, 4, AddressingMode::Absolute),
        0x6e => spec_entry(0x6e, Mnemonic::ROR, 3, 6, AddressingMode::Absolute),
        0x6f => spec_entry(0x6f, Mnemonic::RRA, 3, 6, AddressingMode::Absolute),
        0x70 => spec_entry(0x70, Mnemonic::BVS, 2, 2, AddressingMode::NoneAddressing),
        0x71 => spec_entry(0x71, Mnemonic::ADC, 2, 5, AddressingMode::Indirect_Y),
        0x73 => spec_entry(0x73, Mnemonic::RRA, 2, 8, AddressingMode::Indirect_Y),
        0x74 => spec_entry(0x74, Mnemonic::NOP, 2, 4, AddressingMode::ZeroPage_X),
        0x75 => spec_entry(0x75, Mnemonic::ADC, 2, 4, AddressingMode::ZeroPage_X),
        0x76 => spec_entry(0x76, Mnemonic::ROR, 2, 6, AddressingMode::ZeroPage_X),
        0x77 => spec_entry(0x77, Mnemonic::RRA, 2, 6, AddressingMode::ZeroPage_X),
        0x78 => spec_entry(0x78, Mnemonic::SEI, 1, 2, AddressingMode::NoneAddressing),
        0x79 => spec_entry(0x79, Mnemonic::ADC, 3, 4, AddressingMode::Absolute_Y),
        0x7a => spec_entry(0x7a, Mnemonic::NOP, 1, 2, AddressingMode::NoneAddressing),
        0x7b => spec_entry(0x7b, Mnemonic::RRA, 3, 7, AddressingMode::Absolute_Y),
        0x7c => spec_entry(0x7c, Mnemonic::NOP, 3, 4, AddressingMode::Absolute_X),
        0x7d => spec_entry(0x7d, Mnemonic::ADC, 3, 4, AddressingMode::Absolute_X),
        0x7e => spec_entry(0x7e, Mnemonic::ROR, 3, 7, AddressingMode::Absolute_X),
        0x7f => spec_entry(0x7f, Mnemonic::RRA, 3, 7, AddressingMode::Absolute_X),
        0x80 => spec_entry(0x80, Mnemonic::NOP, 2, 2, AddressingMode::Immediate),
        0x81 => spec_entry(0x81, Mnemonic::STA, 2, 6, AddressingMode::Indirect_X),
        0x82 => spec_entry(0x82, Mnemonic::NOP, 2, 2, AddressingMode::Immediate),
        0x83 => spec_entry(0x83, Mnemonic::SAX, 2, 6, AddressingMode::Indirect_X),
        0x84 => spec_entry(0x84, Mnemonic::STY, 2, 3, AddressingMode::ZeroPage),
        0x85 => spec_entry(0x85, Mnemonic::STA, 2, 3, AddressingMode::ZeroPage),
        0x86 => spec_entry(0x86, Mnemonic::STX, 2, 3, AddressingMode::ZeroPage),
        0x87 => spec_entry(0x87, Mnemonic::SAX, 2, 3, AddressingMode::ZeroPage),
        0x88 => spec_entry(0x88, Mnemonic::DEY, 1, 2, AddressingMode::NoneAddressing),
        0x89 => spec_entry(0x89, Mnemonic::NOP, 2, 2, AddressingMode::Immediate),
        0x8a => spec_entry(0x8a, Mnemonic::TXA, 1, 2, AddressingMode::NoneAddressing),
        0x8b => spec_entry(0x8b, Mnemonic::XAA, 2, 3, AddressingMode::Immediate),
        0x8c => spec_entry(0x8c, Mnemonic::STY, 3, 4, AddressingMode::Absolute),
        0x8d => spec_entry(0x8d, Mnemonic::STA, 3, 4, AddressingMode::Absolute),
        0x8e => spec_entry(0x8e, Mnemonic::STX, 3, 4, AddressingMode::Absolute),
        0x8f => spec_entry(0x8f, Mnemonic::SAX, 3, 4, AddressingMode::Absolute),
        0x90 => spec_entry(0x90, Mnemonic::BCC, 2, 2, AddressingMode::NoneAddressing),
        0x91 => spec_entry(0x91, Mnemonic::STA, 2, 6, AddressingMode::Indirect_Y),
        0x93 => spec_entry(0x93, Mnemonic::AHX, 2, 8, AddressingMode::Indirect_Y),
        0x94 => spec_entry(0x94, Mnemonic::STY, 2, 4, AddressingMode::ZeroPage_X),
        0x95 => spec_entry(0x95, Mnemonic::STA, 2, 4, AddressingMode::ZeroPage_X),
        0x96 => spec_entry(0x96, Mnemonic::STX, 2, 4, AddressingMode::ZeroPage_Y),
        0x97 => spec_entry(0x97, Mnemonic::SAX, 2, 4, AddressingMode::ZeroPage_Y),
        0x98 => spec_entry(0x98, Mnemonic::TYA, 1, 2, AddressingMode::NoneAddressing),
        0x99 => spec_entry(0x99, Mnemonic::STA, 3, 5, AddressingMode::Absolute_Y),
        0x9a => spec_entry(0x9a, Mnemonic::TXS, 1, 2, AddressingMode::NoneAddressing),
        0x9b => spec_entry(0x9b, Mnemonic::TAS, 3, 2, AddressingMode::Absolute_Y),
        0x9c => spec_entry(0x9c, Mnemonic::SHY, 3, 4, AddressingMode::Absolute_X),
        0x9d => spec_entry(0x9d, Mnemonic::STA, 3, 5, AddressingMode::Absolute_X),
        0x9e => spec_entry(0x9e, Mnemonic::SHX, 3, 4, AddressingMode::Absolute_Y),
        0x9f => spec_entry(0x9f, Mnemonic::AHX, 3, 4, AddressingMode::Absolute_Y),
        0xa0 => spec_entry(0xa0, Mnemonic::LDY, 2, 2, AddressingMode::Immediate),
        0xa1 => spec_entry(0xa1, Mnemonic::LDA, 2, 6, AddressingMode::Indirect_X),
        0xa2 => spec_entry(0xa2, Mnemonic::LDX, 2, 2, AddressingMode::Immediate),
        0xa3 => spec_entry(0xa3, Mnemonic::LAX, 2, 6, AddressingMode::Indirect_X),
        0xa4 => spec_entry(0xa4, Mnemonic::LDY, 2, 3, AddressingMode::ZeroPage),
        0xa5 => spec_entry(0xa5, Mnemonic::LDA, 2, 3, AddressingMode::ZeroPage),
        0xa6 => spec_entry(0xa6, Mnemonic::LDX, 2, 3, AddressingMode::ZeroPage),
        0xa7 => spec_entry(0xa7, Mnemonic::LAX, 2, 3, AddressingMode::ZeroPage),
        0xa8 => spec_entry(0xa8, Mnemonic::TAY, 1, 2, AddressingMode::NoneAddressing),
        0xa9 => spec_entry(0xa9, Mnemonic::LDA, 2, 2, AddressingMode::Immediate),
        0xaa => spec_entry(0xaa, Mnemonic::TAX, 1, 2, AddressingMode::NoneAddressing),
        0xab => spec_entry(0xab, Mnemonic::LXA, 2, 3, AddressingMode::Immediate),
        0xac => spec_entry(0xac, Mnemonic::LDY, 3, 4, AddressingMode::Absolute),
        0xad => spec_entry(0xad, Mnemonic::LDA, 3, 4, AddressingMode::Absolute),
        0xae => spec_entry(0xae, Mnemonic::LDX, 3, 4, AddressingMode::Absolute),
        0xaf => spec_entry(0xaf, Mnemonic::LAX, 3, 4, AddressingMode::Absolute),
        0xb0 => spec_entry(0xb0, Mnemonic::BCS, 2, 2, AddressingMode::NoneAddressing),
        0xb1 => spec_entry(0xb1, Mnemonic::LDA, 2, 5, AddressingMode::Indirect_Y),
        0xb3 => spec_entry(0xb3, Mnemonic::LAX, 2, 5, AddressingMode::Indirect_Y),
        0xb4 => spec_entry(0xb4, Mnemonic::LDY, 2, 4, AddressingMode::ZeroPage_X),
        0xb5 => spec_entry(0xb5, Mnemonic::LDA, 2, 4, AddressingMode::ZeroPage_X),
        0xb6 => spec_entry(0xb6, Mnemonic::LDX, 2, 4, AddressingMode::ZeroPage_Y),
        0xb7 => spec_entry(0xb7, Mnemonic::LAX, 2, 4, AddressingMode::ZeroPage_Y),
        0xb8 => spec_entry(0xb8, Mnemonic::CLV, 1, 2, AddressingMode::NoneAddressing),
        0xb9 => spec_entry(0xb9, Mnemonic::LDA, 3, 4, AddressingMode::Absolute_Y),
        0xba => spec_entry(0xba, Mnemonic::TSX, 1, 2, AddressingMode::NoneAddressing),
        0xbb => spec_entry(0xbb, Mnemonic::LAS, 3, 2, AddressingMode::Absolute_Y),
        0xbc => spec_entry(0xbc, Mnemonic::LDY, 3, 4, AddressingMode::Absolute_X),
        0xbd => spec_entry(0xbd, Mnemonic::LDA, 3, 4, AddressingMode::Absolute_X),
        0xbe => spec_entry(0xbe, Mnemonic::LDX, 3, 4, AddressingMode::Absolute_Y),
        0xbf => spec_entry(0xbf, Mnemonic::LAX, 3, 4, AddressingMode::Absolute_Y),
        0xc0 => spec_entry(0xc0, Mnemonic::CPY, 2, 2, AddressingMode::Immediate),
        0xc1 => spec_entry(0xc1, Mnemonic::CMP, 2, 6, AddressingMode::Indirect_X),
        0xc2 => spec_entry(0xc2, Mnemonic::NOP, 2, 2, AddressingMode::Immediate),
        0xc3 => spec_entry(0xc3, Mnemonic::DCP, 2, 8, AddressingMode::Indirect_X),
        0xc4 => spec_entry(0xc4, Mnemonic::CPY, 2, 3, AddressingMode::ZeroPage),
        0xc5 => spec_entry(0xc5, Mnemonic::CMP, 2, 3, AddressingMode::ZeroPage),
        0xc6 => spec_entry(0xc6, Mnemonic::DEC, 2, 5, AddressingMode::ZeroPage),
        0xc7 => spec_entry(0xc7, Mnemonic::DCP, 2, 5, AddressingMode::ZeroPage),
        0xc8 => spec_entry(0xc8, Mnemonic::INY, 1, 2, AddressingMode::NoneAddressing),
        0xc9 => spec_entry(0xc9, Mnemonic::CMP, 2, 2, AddressingMode::Immediate),
        0xca => spec_entry(0xca, Mnemonic::DEX, 1, 2, AddressingMode::NoneAddressing),
        0xcb => spec_entry(0xcb, Mnemonic::AXS, 2, 2, AddressingMode::Immediate),
        0xcc => spec_entry(0xcc, Mnemonic::CPY, 3, 4, AddressingMode::Absolute),
        0xcd => spec_entry(0xcd, Mnemonic::CMP, 3, 4, AddressingMode::Absolute),
        0xce => spec_entry(0xce, Mnemonic::DEC, 3, 6, AddressingMode::Absolute),
        0xcf => spec_entry(0xcf, Mnemonic::DCP, 3, 6, AddressingMode::Absolute),
        0xd0 => spec_entry(0xd0, Mnemonic::BNE, 2, 2, AddressingMode::NoneAddressing),
        0xd1 => spec_entry(0xd1, Mnemonic::CMP, 2, 5, AddressingMode::Indirect_Y),
        0xd3 => spec_entry(0xd3, Mnemonic::DCP, 2, 8, AddressingMode::Indirect_Y),
        0xd4 => spec_entry(0xd4, Mnemonic::NOP, 2, 4, AddressingMode::ZeroPage_X),
        0xd5 => spec_entry(0xd5, Mnemonic::CMP, 2, 4, AddressingMode::ZeroPage_X),
        0xd6 => spec_entry(0xd6, Mnemonic::DEC, 2, 6, AddressingMode::ZeroPage_X),
        0xd7 => spec_entry(0xd7, Mnemonic::DCP, 2, 6, AddressingMode::ZeroPage_X),
        0xd8 => spec_entry(0xd8, Mnemonic::CLD, 1, 2, AddressingMode::NoneAddressing),
        0xd9 => spec_entry(0xd9, Mnemonic::CMP, 3, 4, AddressingMode::Absolute_Y),
        0xda => spec_entry(0xda, Mnemonic::NOP, 1, 2, AddressingMode::NoneAddressing),
        0xdb => spec_entry(0xdb, Mnemonic::DCP, 3, 7, AddressingMode::Absolute_Y),
        0xdc => spec_entry(0xdc, Mnemonic::NOP, 3, 4, AddressingMode::Absolute_X),
        0xdd => spec_entry(0xdd, Mnemonic::CMP, 3, 4, AddressingMode::Absolute_X),
        0xde => spec_entry(0xde, Mnemonic::DEC, 3, 7, AddressingMode::Absolute_X),
        0xdf => spec_entry(0xdf, Mnemonic::DCP, 3, 7, AddressingMode::Absolute_X),
        0xe0 => spec_entry(0xe0, Mnemonic::CPX, 2, 2, AddressingMode::Immediate),
        0xe1 => spec_entry(0xe1, Mnemonic::SBC, 2, 6, AddressingMode::Indirect_X),
        0xe2 => spec_entry(0xe2, Mnemonic::NOP, 2, 2, AddressingMode::Immediate),
        0xe3 => spec_entry(0xe3, Mnemonic::ISB, 2, 8, AddressingMode::Indirect_X),
        0xe4 => spec_entry(0xe4, Mnemonic::CPX, 2, 3, AddressingMode::ZeroPage),
        0xe5 => spec_entry(0xe5, Mnemonic::SBC, 2, 3, AddressingMode::ZeroPage),
        0xe6 => spec_entry(0xe6, Mnemonic::INC, 2, 5, AddressingMode::ZeroPage),
        0xe7 => spec_entry(0xe7, Mnemonic::ISB, 2, 5, AddressingMode::ZeroPage),
        0xe8 => spec_entry(0xe8, Mnemonic::INX, 1, 2, AddressingMode::NoneAddressing),
        0xe9 => spec_entry(0xe9, Mnemonic::SBC, 2, 2, AddressingMode::Immediate),
        0xea => spec_entry(0xea, Mnemonic::NOP, 1, 2, AddressingMode::NoneAddressing),
        0xeb => spec_entry(0xeb, Mnemonic::SBC, 2, 2, AddressingMode::Immediate),
        0xec => spec_entry(0xec, Mnemonic::CPX, 3, 4, AddressingMode::Absolute),
        0xed => spec_entry(0xed, Mnemonic::SBC, 3, 4, AddressingMode::Absolute),
        0xee => spec_entry(0xee, Mnemonic::INC, 3, 6, AddressingMode::Absolute),
        0xef => spec_entry(0xef, Mnemonic::ISB, 3, 6, AddressingMode::Absolute),
        0xf0 => spec_entry(0xf0, Mnemonic::BEQ, 2, 2, AddressingMode::NoneAddressing),
        0xf1 => spec_entry(0xf1, Mnemonic::SBC, 2, 5, AddressingMode::Indirect_Y),
        0xf3 => spec_entry(0xf3, Mnemonic::ISB, 2, 8, AddressingMode::Indirect_Y),
        0xf4 => spec_entry(0xf4, Mnemonic::NOP, 2, 4, AddressingMode::ZeroPage_X),
        0xf5 => spec_entry(0xf5, Mnemonic::SBC, 2, 4, AddressingMode::ZeroPage_X),
        0xf6 => spec_entry(0xf6, Mnemonic::INC, 2, 6, AddressingMode::ZeroPage_X),
        0xf7 => spec_entry(0xf7, Mnemonic::ISB, 2, 6, AddressingMode::ZeroPage_X),
        0xf8 => spec_entry(0xf8, Mnemonic::SED, 1, 2, AddressingMode::NoneAddressing),
        0xf9 => spec_entry(0xf9, Mnemonic::SBC, 3, 4, AddressingMode::Absolute_Y),
        0xfa => spec_entry(0xfa, Mnemonic::NOP, 1, 2, AddressingMode::NoneAddressing),
        0xfb => spec_entry(0xfb, Mnemonic::ISB, 3, 7, AddressingMode::Absolute_Y),
        0xfc => spec_entry(0xfc, Mnemonic::NOP, 3, 4, AddressingMode::Absolute_X),
        0xfd => spec_entry(0xfd, Mnemonic::SBC, 3, 4, AddressingMode::Absolute_X),
        0xfe => spec_entry(0xfe, Mnemonic::INC, 3, 7, AddressingMode::Absolute_X),
        0xff => spec_entry(0xff, Mnemonic::ISB, 3, 7, AddressingMode::Absolute_X),
        _ => None,
    }
}

/// Looks an opcode byte up in the instruction table.
pub fn lookup(code: u8) -> (r: Option<OpCode>)
    ensures
        r == spec_lookup(code),
{
    reveal(spec_lookup);
    match code {
        0x00 => entry(0x00, Mnemonic::BRK, 1, 7, AddressingMode::NoneAddressing),
        0x01 => entry(0x01, Mnemonic::ORA, 2, 6, AddressingMode::Indirect_X),
        0x03 => entry(0x03, Mnemonic::SLO, 2, 8, AddressingMode::Indirect_X),
        0x04 => entry(0x04, Mnemonic::NOP, 2, 3, AddressingMode::ZeroPage),
        0x05 => entry(0x05, Mnemonic::ORA, 2, 3, AddressingMode::ZeroPage),
        0x06 => entry(0x06, Mnemonic::ASL, 2, 5, AddressingMode::ZeroPage),
        0x07 => entry(0x07, Mnemonic::SLO, 2, 5, AddressingMode::ZeroPage),
        0x08 => entry(0x08, Mnemonic::PHP, 1, 3, AddressingMode::NoneAddressing),
        0x09 => entry(0x09, Mnemonic::ORA, 2, 2, AddressingMode::Immediate),
        0x0a => entry(0x0a, Mnemonic::ASL, 1, 2, AddressingMode::NoneAddressing),
        0x0b => entry(0x0b, Mnemonic::ANC, 2, 2, AddressingMode::Immediate),
        0x0c => entry(0x0c, Mnemonic::NOP, 3, 4, AddressingMode::Absolute),
        0x0d => entry(0x0d, Mnemonic::ORA, 3, 4, AddressingMode::Absolute),
        0x0e => entry(0x0e, Mnemonic::ASL, 3, 6, AddressingMode::Absolute),
        0x0f => entry(0x0f, Mnemonic::SLO, 3, 6, AddressingMode::Absolute),
        0x10 => entry(0x10, Mnemonic::BPL, 2, 2, AddressingMode::NoneAddressing),
        0x11 => entry(0x11, Mnemonic::ORA, 2, 5, AddressingMode::Indirect_Y),
        0x13 => entry(0x13, Mnemonic::SLO, 2, 8, AddressingMode::Indirect_Y),
        0x14 => entry(0x14, Mnemonic::NOP, 2, 4, AddressingMode::ZeroPage_X),
        0x15 => entry(0x15, Mnemonic::ORA, 2, 4, AddressingMode::ZeroPage_X),
        0x16 => entry(0x16, Mnemonic::ASL, 2, 6, AddressingMode::ZeroPage_X),
        0x17 => entry(0x17, Mnemonic::SLO, 2, 6, AddressingMode::ZeroPage_X),
        0x18 => entry(0x18, Mnemonic::CLC, 1, 2, AddressingMode::NoneAddressing),
        0x19 => entry(0x19, Mnemonic::ORA, 3, 4, AddressingMode::Absolute_Y),
        0x1a => entry(0x1a, Mnemonic::NOP, 1, 2, AddressingMode::NoneAddressing),
        0x1b => entry(0x1b, Mnemonic::SLO, 3, 7, AddressingMode::Absolute_Y),
        0x1c => entry(0x1c, Mnemonic::NOP, 3, 4, AddressingMode::Absolute_X),
        0x1d => entry(0x1d, Mnemonic::ORA, 3, 4, AddressingMode::Absolute_X),
        0x1e => entry(0x1e, Mnemonic::ASL, 3, 7, AddressingMode::Absolute_X),
        0x1f => entry(0x1f, Mnemonic::SLO, 3, 7, AddressingMode::Absolute_X),
        0x20 => entry(0x20, Mnemonic::JSR, 3, 6, AddressingMode::NoneAddressing),
        0x21 => entry(0x21, Mnemonic::AND, 2, 6, AddressingMode::Indirect_X),
        0x23 => entry(0x23, Mnemonic::RLA, 2, 8, AddressingMode::Indirect_X),
        0x24 => entry(0x24, Mnemonic::BIT, 2, 3, AddressingMode::ZeroPage),
        0x25 => entry(0x25, Mnemonic::AND, 2, 3, AddressingMode::ZeroPage),
        0x26 => entry(0x26, Mnemonic::ROL, 2, 5, AddressingMode::ZeroPage),
        0x27 => entry(0x27, Mnemonic::RLA, 2, 5, AddressingMode::ZeroPage),
        0x28 => entry(0x28, Mnemonic::PLP, 1, 4, AddressingMode::NoneAddressing),
        0x29 => entry(0x29, Mnemonic::AND, 2, 2, AddressingMode::Immediate),
        0x2a => entry(0x2a, Mnemonic::ROL, 1, 2, AddressingMode::NoneAddressing),
        0x2b => entry(0x2b, Mnemonic::ANC, 2, 2, AddressingMode::Immediate),
        0x2c => entry(0x2c, Mnemonic::BIT, 3, 4, AddressingMode::Absolute),
        0x2d => entry(0x2d, Mnemonic::AND, 3, 4, AddressingMode::Absolute),
        0x2e => entry(0x2e, Mnemonic::ROL, 3, 6, AddressingMode::Absolute),
        0x2f => entry(0x2f, Mnemonic::RLA, 3, 6, AddressingMode::Absolute),
        0x30 => entry(0x30, Mnemonic::BMI, 2, 2, AddressingMode::NoneAddressing),
        0x31 => entry(0x31, Mnemonic::AND, 2, 5, AddressingMode::Indirect_Y),
        0x33 => entry(0x33, Mnemonic::RLA, 2, 8, AddressingMode::Indirect_Y),
        0x34 => entry(0x34, Mnemonic::NOP, 2, 4, AddressingMode::ZeroPage_X),
        0x35 => entry(0x35, Mnemonic::AND, 2, 4, AddressingMode::ZeroPage_X),
        0x36 => entry(0x36, Mnemonic::ROL, 2, 6, AddressingMode::ZeroPage_X),
        0x37 => entry(0x37, Mnemonic::RLA, 2, 6, AddressingMode::ZeroPage_X),
        0x38 => entry(0x38, Mnemonic::SEC, 1, 2, AddressingMode::NoneAddressing),
        0x39 => entry(0x39, Mnemonic::AND, 3, 4, AddressingMode::Absolute_Y),
        0x3a => entry(0x3a, Mnemonic::NOP, 1, 2, AddressingMode::NoneAddressing),
        0x3b => entry(0x3b, Mnemonic::RLA, 3, 7, AddressingMode::Absolute_Y),
        0x3c => entry(0x3c, Mnemonic::NOP, 3, 4, AddressingMode::Absolute_X),
        0x3d => entry(0x3d, Mnemonic::AND, 3, 4, AddressingMode::Absolute_X),
        0x3e => entry(0x3e, Mnemonic::ROL, 3, 7, AddressingMode::Absolute_X),
        0x3f => entry(0x3f, Mnemonic::RLA, 3, 7, AddressingMode::Absolute_X),
        0x40 => entry(0x40, Mnemonic::RTI, 1, 6, AddressingMode::NoneAddressing),
        0x41 => entry(0x41, Mnemonic::EOR, 2, 6, AddressingMode::Indirect_X),
        0x43 => entry(0x43, Mnemonic::SRE, 2, 8, AddressingMode::Indirect_X),
        0x44 => entry(0x44, Mnemonic::NOP, 2, 3, AddressingMode::ZeroPage),
        0x45 => entry(0x45, Mnemonic::EOR, 2, 3, AddressingMode::ZeroPage),
        0x46 => entry(0x46, Mnemonic::LSR, 2, 5, AddressingMode::ZeroPage),
        0x47 => entry(0x47, Mnemonic::SRE, 2, 5, AddressingMode::ZeroPage),
        0x48 => entry(0x48, Mnemonic::PHA, 1, 3, AddressingMode::NoneAddressing),
        0x49 => entry(0x49, Mnemonic::EOR, 2, 2, AddressingMode::Immediate),
        0x4a => entry(0x4a, Mnemonic::LSR, 1, 2, AddressingMode::NoneAddressing),
        0x4b => entry(0x4b, Mnemonic::ALR, 2, 2, AddressingMode::Immediate),
        0x4c => entry(0x4c, Mnemonic::JMP, 3, 3, AddressingMode::NoneAddressing),
        0x4d => entry(0x4d, Mnemonic::EOR, 3, 4, AddressingMode::Absolute),
        0x4e => entry(0x4e, Mnemonic::LSR, 3, 6, AddressingMode::Absolute),
        0x4f => entry(0x4f, Mnemonic::SRE, 3, 6, AddressingMode::Absolute),
        0x50 => entry(0x50, Mnemonic::BVC, 2, 2, AddressingMode::NoneAddressing),
        0x51 => entry(0x51, Mnemonic::EOR, 2, 5, AddressingMode::Indirect_Y),
        0x53 => entry(0x53, Mnemonic::SRE, 2, 8, AddressingMode::Indirect_Y),
        0x54 => entry(0x54, Mnemonic::NOP, 2, 4, AddressingMode::ZeroPage_X),
        0x55 => entry(0x55, Mnemonic::EOR, 2, 4, AddressingMode::ZeroPage_X),
        0x56 => entry(0x56, Mnemonic::LSR, 2, 6, AddressingMode::ZeroPage_X),
        0x57 => entry(0x57, Mnemonic::SRE, 2, 6, AddressingMode::ZeroPage_X),
        0x58 => entry(0x58, Mnemonic::CLI, 1, 2, AddressingMode::NoneAddressing),
        0x59 => entry(0x59, Mnemonic::EOR, 3, 4, AddressingMode::Absolute_Y),
        0x5a => entry(0x5a, Mnemonic::NOP, 1, 2, AddressingMode::NoneAddressing),
        0x5b => entry(0x5b, Mnemonic::SRE, 3, 7, AddressingMode::Absolute_Y),
        0x5c => entry(0x5c, Mnemonic::NOP, 3, 4, AddressingMode::Absolute_X),
        0x5d => entry(0x5d, Mnemonic::EOR, 3, 4, AddressingMode::Absolute_X),
        0x5e => entry(0x5e, Mnemonic::LSR, 3, 7, AddressingMode::Absolute_X),
        0x5f => entry(0x5f, Mnemonic::SRE, 3, 7, AddressingMode::Absolute_X),
        0x60 => entry(0x60, Mnemonic::RTS, 1, 6, AddressingMode::NoneAddressing),
        0x61 => entry(0x61, Mnemonic::ADC, 2, 6, AddressingMode::Indirect_X),
        0x63 => entry(0x63, Mnemonic::RRA, 2, 8, AddressingMode::Indirect_X),
        0x64 => entry(0x64, Mnemonic::NOP, 2, 3, AddressingMode::ZeroPage),
        0x65 => entry(0x65, Mnemonic::ADC, 2, 3, AddressingMode::ZeroPage),
        0x66 => entry(0x66, Mnemonic::ROR, 2, 5, AddressingMode::ZeroPage),
        0x67 => entry(0x67, Mnemonic::RRA, 2, 5, AddressingMode::ZeroPage),
        0x68 => entry(0x68, Mnemonic::PLA, 1, 4, AddressingMode::NoneAddressing),
        0x69 => entry(0x69, Mnemonic::ADC, 2, 2, AddressingMode::Immediate),
        0x6a => entry(0x6a, Mnemonic::ROR, 1, 2, AddressingMode::NoneAddressing),
        0x6b => entry(0x6b, Mnemonic::ARR, 2, 2, AddressingMode::Immediate),
        0x6c => entry(0x6c, Mnemonic::JMP, 3, 5, AddressingMode::Indirect),
        0x6d => entry(0x6d, Mnemonic::ADC, 3, 4, AddressingMode::Absolute),
        0x6e => entry(0x6e, Mnemonic::ROR, 3, 6, AddressingMode::Absolute),
        0x6f => entry(0x6f, Mnemonic::RRA, 3, 6, AddressingMode::Absolute),
        0x70 => entry(0x70, Mnemonic::BVS, 2, 2, AddressingMode::NoneAddressing),
        0x71 => entry(0x71, Mnemonic::ADC, 2, 5, AddressingMode::Indirect_Y),
        0x73 => entry(0x73, Mnemonic::RRA, 2, 8, AddressingMode::Indirect_Y),
        0x74 => entry(0x74, Mnemonic::NOP, 2, 4, AddressingMode::ZeroPage_X),
        0x75 => entry(0x75, Mnemonic::ADC, 2, 4, AddressingMode::ZeroPage_X),
        0x76 => entry(0x76, Mnemonic::ROR, 2, 6, AddressingMode::ZeroPage_X),
        0x77 => entry(0x77, Mnemonic::RRA, 2, 6, AddressingMode::ZeroPage_X),
        0x78 => entry(0x78, Mnemonic::SEI, 1, 2, AddressingMode::NoneAddressing),
        0x79 => entry(0x79, Mnemonic::ADC, 3, 4, AddressingMode::Absolute_Y),
        0x7a => entry(0x7a, Mnemonic::NOP, 1, 2, AddressingMode::NoneAddressing),
        0x7b => entry(0x7b, Mnemonic::RRA, 3, 7, AddressingMode::Absolute_Y),
        0x7c => entry(0x7c, Mnemonic::NOP, 3, 4, AddressingMode::Absolute_X),
        0x7d => entry(0x7d, Mnemonic::ADC, 3, 4, AddressingMode::Absolute_X),
        0x7e => entry(0x7e, Mnemonic::ROR, 3, 7, AddressingMode::Absolute_X),
        0x7f => entry(0x7f, Mnemonic::RRA, 3, 7, AddressingMode::Absolute_X),
        0x80 => entry(0x80, Mnemonic::NOP, 2, 2, AddressingMode::Immediate),
        0x81 => entry(0x81, Mnemonic::STA, 2, 6, AddressingMode::Indirect_X),
        0x82 => entry(0x82, Mnemonic::NOP, 2, 2, AddressingMode::Immediate),
        0x83 => entry(0x83, Mnemonic::SAX, 2, 6, AddressingMode::Indirect_X),
        0x84 => entry(0x84, Mnemonic::STY, 2, 3, AddressingMode::ZeroPage),
        0x85 => entry(0x85, Mnemonic::STA, 2, 3, AddressingMode::ZeroPage),
        0x86 => entry(0x86, Mnemonic::STX, 2, 3, AddressingMode::ZeroPage),
        0x87 => entry(0x87, Mnemonic::SAX, 2, 3, AddressingMode::ZeroPage),
        0x88 => entry(0x88, Mnemonic::DEY, 1, 2, AddressingMode::NoneAddressing),
        0x89 => entry(0x89, Mnemonic::NOP, 2, 2, AddressingMode::Immediate),
        0x8a => entry(0x8a, Mnemonic::TXA, 1, 2, AddressingMode::NoneAddressing),
        0x8b => entry(0x8b, Mnemonic::XAA, 2, 3, AddressingMode::Immediate),
        0x8c => entry(0x8c, Mnemonic::STY, 3, 4, AddressingMode::Absolute),
        0x8d => entry(0x8d, Mnemonic::STA, 3, 4, AddressingMode::Absolute),
        0x8e => entry(0x8e, Mnemonic::STX, 3, 4, AddressingMode::Absolute),
        0x8f => entry(0x8f, Mnemonic::SAX, 3, 4, AddressingMode::Absolute),
        0x90 => entry(0x90, Mnemonic::BCC, 2, 2, AddressingMode::NoneAddressing),
        0x91 => entry(0x91, Mnemonic::STA, 2, 6, AddressingMode::Indirect_Y),
        0x93 => entry(0x93, Mnemonic::AHX, 2, 8, AddressingMode::Indirect_Y),
        0x94 => entry(0x94, Mnemonic::STY, 2, 4, AddressingMode::ZeroPage_X),
        0x95 => entry(0x95, Mnemonic::STA, 2, 4, AddressingMode::ZeroPage_X),
        0x96 => entry(0x96, Mnemonic::STX, 2, 4, AddressingMode::ZeroPage_Y),
        0x97 => entry(0x97, Mnemonic::SAX, 2, 4, AddressingMode::ZeroPage_Y),
        0x98 => entry(0x98, Mnemonic::TYA, 1, 2, AddressingMode::NoneAddressing),
        0x99 => entry(0x99, Mnemonic::STA, 3, 5, AddressingMode::Absolute_Y),
        0x9a => entry(0x9a, Mnemonic::TXS, 1, 2, AddressingMode::NoneAddressing),
        0x9b => entry(0x9b, Mnemonic::TAS, 3, 2, AddressingMode::Absolute_Y),
        0x9c => entry(0x9c, Mnemonic::SHY, 3, 4, AddressingMode::Absolute_X),
        0x9d => entry(0x9d, Mnemonic::STA, 3, 5, AddressingMode::Absolute_X),
        0x9e => entry(0x9e, Mnemonic::SHX, 3, 4, AddressingMode::Absolute_Y),
        0x9f => entry(0x9f, Mnemonic::AHX, 3, 4, AddressingMode::Absolute_Y),
        0xa0 => entry(0xa0, Mnemonic::LDY, 2, 2, AddressingMode::Immediate),
        0xa1 => entry(0xa1, Mnemonic::LDA, 2, 6, AddressingMode::Indirect_X),
        0xa2 => entry(0xa2, Mnemonic::LDX, 2, 2, AddressingMode::Immediate),
        0xa3 => entry(0xa3, Mnemonic::LAX, 2, 6, AddressingMode::Indirect_X),
        0xa4 => entry(0xa4, Mnemonic::LDY, 2, 3, AddressingMode::ZeroPage),
        0xa5 => entry(0xa5, Mnemonic::LDA, 2, 3, AddressingMode::ZeroPage),
        0xa6 => entry(0xa6, Mnemonic::LDX, 2, 3, AddressingMode::ZeroPage),
        0xa7 => entry(0xa7, Mnemonic::LAX, 2, 3, AddressingMode::ZeroPage),
        0xa8 => entry(0xa8, Mnemonic::TAY, 1, 2, AddressingMode::NoneAddressing),
        0xa9 => entry(0xa9, Mnemonic::LDA, 2, 2, AddressingMode::Immediate),
        0xaa => entry(0xaa, Mnemonic::TAX, 1, 2, AddressingMode::NoneAddressing),
        0xab => entry(0xab, Mnemonic::LXA, 2, 3, AddressingMode::Immediate),
        0xac => entry(0xac, Mnemonic::LDY, 3, 4, AddressingMode::Absolute),
        0xad => entry(0xad, Mnemonic::LDA, 3, 4, AddressingMode::Absolute),
        0xae => entry(0xae, Mnemonic::LDX, 3, 4, AddressingMode::Absolute),
        0xaf => entry(0xaf, Mnemonic::LAX, 3, 4, AddressingMode::Absolute),
        0xb0 => entry(0xb0, Mnemonic::BCS, 2, 2, AddressingMode::NoneAddressing),
        0xb1 => entry(0xb1, Mnemonic::LDA, 2, 5, AddressingMode::Indirect_Y),
        0xb3 => entry(0xb3, Mnemonic::LAX, 2, 5, AddressingMode::Indirect_Y),
        0xb4 => entry(0xb4, Mnemonic::LDY, 2, 4, AddressingMode::ZeroPage_X),
        0xb5 => entry(0xb5, Mnemonic::LDA, 2, 4, AddressingMode::ZeroPage_X),
        0xb6 => entry(0xb6, Mnemonic::LDX, 2, 4, AddressingMode::ZeroPage_Y),
        0xb7 => entry(0xb7, Mnemonic::LAX, 2, 4, AddressingMode::ZeroPage_Y),
        0xb8 => entry(0xb8, Mnemonic::CLV, 1, 2, AddressingMode::NoneAddressing),
        0xb9 => entry(0xb9, Mnemonic::LDA, 3, 4, AddressingMode::Absolute_Y),
        0xba => entry(0xba, Mnemonic::TSX, 1, 2, AddressingMode::NoneAddressing),
        0xbb => entry(0xbb, Mnemonic::LAS, 3, 2, AddressingMode::Absolute_Y),
        0xbc => entry(0xbc, Mnemonic::LDY, 3, 4, AddressingMode::Absolute_X),
        0xbd => entry(0xbd, Mnemonic::LDA, 3, 4, AddressingMode::Absolute_X),
        0xbe => entry(0xbe, Mnemonic::LDX, 3, 4, AddressingMode::Absolute_Y),
        0xbf => entry(0xbf, Mnemonic::LAX, 3, 4, AddressingMode::Absolute_Y),
        0xc0 => entry(0xc0, Mnemonic::CPY, 2, 2, AddressingMode::Immediate),
        0xc1 => entry(0xc1, Mnemonic::CMP, 2, 6, AddressingMode::Indirect_X),
        0xc2 => entry(0xc2, Mnemonic::NOP, 2, 2, AddressingMode::Immediate),
        0xc3 => entry(0xc3, Mnemonic::DCP, 2, 8, AddressingMode::Indirect_X),
        0xc4 => entry(0xc4, Mnemonic::CPY, 2, 3, AddressingMode::ZeroPage),
        0xc5 => entry(0xc5, Mnemonic::CMP, 2, 3, AddressingMode::ZeroPage),
        0xc6 => entry(0xc6, Mnemonic::DEC, 2, 5, AddressingMode::ZeroPage),
        0xc7 => entry(0xc7, Mnemonic::DCP, 2, 5, AddressingMode::ZeroPage),
        0xc8 => entry(0xc8, Mnemonic::INY, 1, 2, AddressingMode::NoneAddressing),
        0xc9 => entry(0xc9, Mnemonic::CMP, 2, 2, AddressingMode::Immediate),
        0xca => entry(0xca, Mnemonic::DEX, 1, 2, AddressingMode::NoneAddressing),
        0xcb => entry(0xcb, Mnemonic::AXS, 2, 2, AddressingMode::Immediate),
        0xcc => entry(0xcc, Mnemonic::CPY, 3, 4, AddressingMode::Absolute),
        0xcd => entry(0xcd, Mnemonic::CMP, 3, 4, AddressingMode::Absolute),
        0xce => entry(0xce, Mnemonic::DEC, 3, 6, AddressingMode::Absolute),
        0xcf => entry(0xcf, Mnemonic::DCP, 3, 6, AddressingMode::Absolute),
        0xd0 => entry(0xd0, Mnemonic::BNE, 2, 2, AddressingMode::NoneAddressing),
        0xd1 => entry(0xd1, Mnemonic::CMP, 2, 5, AddressingMode::Indirect_Y),
        0xd3 => entry(0xd3, Mnemonic::DCP, 2, 8, AddressingMode::Indirect_Y),
        0xd4 => entry(0xd4, Mnemonic::NOP, 2, 4, AddressingMode::ZeroPage_X),
        0xd5 => entry(0xd5, Mnemonic::CMP, 2, 4, AddressingMode::ZeroPage_X),
        0xd6 => entry(0xd6, Mnemonic::DEC, 2, 6, AddressingMode::ZeroPage_X),
        0xd7 => entry(0xd7, Mnemonic::DCP, 2, 6, AddressingMode::ZeroPage_X),
        0xd8 => entry(0xd8, Mnemonic::CLD, 1, 2, AddressingMode::NoneAddressing),
        0xd9 => entry(0xd9, Mnemonic::CMP, 3, 4, AddressingMode::Absolute_Y),
        0xda => entry(0xda, Mnemonic::NOP, 1, 2, AddressingMode::NoneAddressing),
        0xdb => entry(0xdb, Mnemonic::DCP, 3, 7, AddressingMode::Absolute_Y),
        0xdc => entry(0xdc, Mnemonic::NOP, 3, 4, AddressingMode::Absolute_X),
        0xdd => entry(0xdd, Mnemonic::CMP, 3, 4, AddressingMode::Absolute_X),
        0xde => entry(0xde, Mnemonic::DEC, 3, 7, AddressingMode::Absolute_X),
        0xdf => entry(0xdf, Mnemonic::DCP, 3, 7, AddressingMode::Absolute_X),
        0xe0 => entry(0xe0, Mnemonic::CPX, 2, 2, AddressingMode::Immediate),
        0xe1 => entry(0xe1, Mnemonic::SBC, 2, 6, AddressingMode::Indirect_X),
        0xe2 => entry(0xe2, Mnemonic::NOP, 2, 2, AddressingMode::Immediate),
        0xe3 => entry(0xe3, Mnemonic::ISB, 2, 8, AddressingMode::Indirect_X),
        0xe4 => entry(0xe4, Mnemonic::CPX, 2, 3, AddressingMode::ZeroPage),
        0xe5 => entry(0xe5, Mnemonic::SBC, 2, 3, AddressingMode::ZeroPage),
        0xe6 => entry(0xe6, Mnemonic::INC, 2, 5, AddressingMode::ZeroPage),
        0xe7 => entry(0xe7, Mnemonic::ISB, 2, 5, AddressingMode::ZeroPage),
        0xe8 => entry(0xe8, Mnemonic::INX, 1, 2, AddressingMode::NoneAddressing),
        0xe9 => entry(0xe9, Mnemonic::SBC, 2, 2, AddressingMode::Immediate),
        0xea => entry(0xea, Mnemonic::NOP, 1, 2, AddressingMode::NoneAddressing),
        0xeb => entry(0xeb, Mnemonic::SBC, 2, 2, AddressingMode::Immediate),
        0xec => entry(0xec, Mnemonic::CPX, 3, 4, AddressingMode::Absolute),
        0xed => entry(0xed, Mnemonic::SBC, 3, 4, AddressingMode::Absolute),
        0xee => entry(0xee, Mnemonic::INC, 3, 6, AddressingMode::Absolute),
        0xef => entry(0xef, Mnemonic::ISB, 3, 6, AddressingMode::Absolute),
        0xf0 => entry(0xf0, Mnemonic::BEQ, 2, 2, AddressingMode::NoneAddressing),
        0xf1 => entry(0xf1, Mnemonic::SBC, 2, 5, AddressingMode::Indirect_Y),
        0xf3 => entry(0xf3, Mnemonic::ISB, 2, 8, AddressingMode::Indirect_Y),
        0xf4 => entry(0xf4, Mnemonic::NOP, 2, 4, AddressingMode::ZeroPage_X),
        0xf5 => entry(0xf5, Mnemonic::SBC, 2, 4, AddressingMode::ZeroPage_X),
        0xf6 => entry(0xf6, Mnemonic::INC, 2, 6, AddressingMode::ZeroPage_X),
        0xf7 => entry(0xf7, Mnemonic::ISB, 2, 6, AddressingMode::ZeroPage_X),
        0xf8 => entry(0xf8, Mnemonic::SED, 1, 2, AddressingMode::NoneAddressing),
        0xf9 => entry(0xf9, Mnemonic::SBC, 3, 4, AddressingMode::Absolute_Y),
        0xfa => entry(0xfa, Mnemonic::NOP, 1, 2, AddressingMode::NoneAddressing),
        0xfb => entry(0xfb, Mnemonic::ISB, 3, 7, AddressingMode::Absolute_Y),
        0xfc => entry(0xfc, Mnemonic::NOP, 3, 4, AddressingMode::Absolute_X),
        0xfd => entry(0xfd, Mnemonic::SBC, 3, 4, AddressingMode::Absolute_X),
        0xfe => entry(0xfe, Mnemonic::INC, 3, 7, AddressingMode::Absolute_X),
        0xff => entry(0xff, Mnemonic::ISB, 3, 7, AddressingMode::Absolute_X),
        _ => None,
    }
}

/// Every entry of the table carries its own opcode byte, is one to three
/// bytes long and costs two to eight cycles.
pub proof fn lemma_lookup_entry(code: u8)
    ensures
        spec_lookup(code) matches Some(opcode) ==> {
            &&& opcode.code == code
            &&& 1 <= opcode.len <= 3
            &&& 2 <= opcode.cycles <= 8
        },
{
    reveal(spec_lookup);
}

} // verus!
