//! The fetch-decode-execute engine.

use vstd::prelude::*;
use crate::bus::lemma_write_keeps_rom;
use crate::cpu::flags::{CARRY, DECIMAL_MODE, INTERRUPT_DISABLE, NEGATIV, OVERFLOW, ZERO};
use crate::cpu::state::{
    is_arithmetic,
    is_branch,
    is_combined,
    is_flag,
    is_jump,
    is_shift,
    is_transfer,
    is_unstable,
    CpuState,
    PROGRAM_MAX_LEN,
    PROGRAM_START,
    RESET_VECTOR,
};
use crate::cpu::{Fault, RunReport, StepOutcome, CPU};
use crate::mem::Mem;
use crate::opcodes::{lemma_lookup_entry, lookup, Mnemonic, OpCode};

verus! {

impl CPU {
    /// Executes an arithmetic, logic or compare instruction.
    fn execute_arithmetic(&mut self, opcode: &OpCode)
        requires
            old(self)@.wf(),
            is_arithmetic(opcode.mnemonic),
        ensures
            final(self)@ == old(self)@.execute_arithmetic(*opcode),
            final(self)@.wf(),
    {
        reveal(CpuState::execute_arithmetic);
        let mode = opcode.mode;
        match opcode.mnemonic {
            Mnemonic::ADC => self.adc(mode),
            Mnemonic::SBC => self.sbc(mode),
            Mnemonic::AND => self.and(mode),
            Mnemonic::EOR => self.eor(mode),
            Mnemonic::ORA => self.ora(mode),
            Mnemonic::BIT => self.bit(mode),
            Mnemonic::CMP => {
                let register = self.reg_a;
                self.compare(mode, register);
            },
            Mnemonic::CPX => {
                let register = self.reg_x;
                self.compare(mode, register);
            },
            Mnemonic::CPY => {
                let register = self.reg_y;
                self.compare(mode, register);
            },
            _ => {},
        }
    }

    /// Executes a shift, rotate, increment or decrement instruction.
    fn execute_shift(&mut self, opcode: &OpCode)
        requires
            old(self)@.wf(),
            is_shift(opcode.mnemonic),
        ensures
            final(self)@ == old(self)@.execute_shift(*opcode),
            final(self)@.wf(),
    {
        reveal(CpuState::execute_shift);
        let mode = opcode.mode;
        match opcode.mnemonic {
            Mnemonic::ASL => {
                self.asl(mode);
            },
            Mnemonic::LSR => {
                self.lsr(mode);
            },
            Mnemonic::ROL => {
                self.rol(mode);
            },
            Mnemonic::ROR => {
                self.ror(mode);
            },
            Mnemonic::INC => {
                self.inc(mode);
            },
            Mnemonic::DEC => self.dec(mode),
            Mnemonic::INX => self.inx(),
            Mnemonic::INY => self.iny(),
            Mnemonic::DEX => self.dex(),
            Mnemonic::DEY => self.dey(),
            _ => {},
        }
    }

    /// Executes a branch instruction.
    fn execute_branch(&mut self, opcode: &OpCode)
        requires
            old(self)@.wf(),
            is_branch(opcode.mnemonic),
        ensures
            final(self)@ == old(self)@.execute_branch(*opcode),
            final(self)@.wf(),
    {
        reveal(CpuState::execute_branch);
        let mode = opcode.mode;
        match opcode.mnemonic {
            Mnemonic::BCC => {
                let condition = !self.status.contains(CARRY);
                self.branch(condition);
            },
            Mnemonic::BCS => {
                let condition = self.status.contains(CARRY);
                self.branch(condition);
            },
            Mnemonic::BEQ => {
                let condition = self.status.contains(ZERO);
                self.branch(condition);
            },
            Mnemonic::BMI => {
                let condition = self.status.contains(NEGATIV);
                self.branch(condition);
            },
            Mnemonic::BNE => {
                let condition = !self.status.contains(ZERO);
                self.branch(condition);
            },
            Mnemonic::BPL => {
                let condition = !self.status.contains(NEGATIV);
                self.branch(condition);
            },
            Mnemonic::BVC => {
                let condition = !self.status.contains(OVERFLOW);
                self.branch(condition);
            },
            Mnemonic::BVS => {
                let condition = self.status.contains(OVERFLOW);
                self.branch(condition);
            },
            _ => {},
        }
    }

    /// Executes an instruction that sets or clears a flag, or does nothing.
    fn execute_flag(&mut self, opcode: &OpCode)
        requires
            old(self)@.wf(),
            is_flag(opcode.mnemonic),
        ensures
            final(self)@ == old(self)@.execute_flag(*opcode),
            final(self)@.wf(),
    {
        reveal(CpuState::execute_flag);
        let mode = opcode.mode;
        match opcode.mnemonic {
            Mnemonic::CLC => self.set_flag(CARRY, false),
            Mnemonic::CLD => self.set_flag(DECIMAL_MODE, false),
            Mnemonic::CLI => self.set_flag(INTERRUPT_DISABLE, false),
            Mnemonic::CLV => self.set_flag(OVERFLOW, false),
            Mnemonic::SEC => self.set_flag(CARRY, true),
            Mnemonic::SED => self.set_flag(DECIMAL_MODE, true),
            Mnemonic::SEI => self.set_flag(INTERRUPT_DISABLE, true),
            Mnemonic::NOP => self.nop(mode),
            Mnemonic::BRK => {},
            _ => {},
        }
    }

    /// Executes a jump, return or stack instruction.
    fn execute_jump(&mut self, opcode: &OpCode)
        requires
            old(self)@.wf(),
            is_jump(opcode.mnemonic),
        ensures
            final(self)@ == old(self)@.execute_jump(*opcode),
            final(self)@.wf(),
    {
        reveal(CpuState::execute_jump);
        let mode = opcode.mode;
        match opcode.mnemonic {
            Mnemonic::JMP => self.jmp(mode),
            Mnemonic::JSR => self.jsr(),
            Mnemonic::RTI => self.rti(),
            Mnemonic::RTS => self.rts(),
            Mnemonic::PHA => self.pha(),
            Mnemonic::PHP => self.php(),
            Mnemonic::PLA => self.pla(),
            Mnemonic::PLP => self.plp(),
            _ => {},
        }
    }

    /// Executes a load, store or register-transfer instruction.
    fn execute_transfer(&mut self, opcode: &OpCode)
        requires
            old(self)@.wf(),
            is_transfer(opcode.mnemonic),
        ensures
            final(self)@ == old(self)@.execute_transfer(*opcode),
            final(self)@.wf(),
    {
        reveal(CpuState::execute_transfer);
        let mode = opcode.mode;
        match opcode.mnemonic {
            Mnemonic::LDA => self.lda(mode),
            Mnemonic::LDX => self.ldx(mode),
            Mnemonic::LDY => self.ldy(mode),
            Mnemonic::STA => self.sta(mode),
            Mnemonic::STX => self.stx(mode),
            Mnemonic::STY => self.sty(mode),
            Mnemonic::TAX => self.tax(),
            Mnemonic::TAY => self.tay(),
            Mnemonic::TSX => self.tsx(),
            Mnemonic::TXA => self.txa(),
            Mnemonic::TXS => self.txs(),
            Mnemonic::TYA => self.tya(),
            _ => {},
        }
    }

    /// Executes an undocumented instruction that combines two documented ones.
    fn execute_combined(&mut self, opcode: &OpCode)
        requires
            old(self)@.wf(),
            is_combined(opcode.mnemonic),
        ensures
            final(self)@ == old(self)@.execute_combined(*opcode),
            final(self)@.wf(),
    {
        reveal(CpuState::execute_combined);
        let mode = opcode.mode;
        match opcode.mnemonic {
            Mnemonic::DCP => self.dcp(mode),
            Mnemonic::ISB => self.isb(mode),
            Mnemonic::RLA => self.rla(mode),
            Mnemonic::RRA => self.rra(mode),
            Mnemonic::SLO => self.slo(mode),
            Mnemonic::SRE => self.sre(mode),
            Mnemonic::LAX => self.lax(mode),
            Mnemonic::SAX => self.sax(mode),
            Mnemonic::LXA => self.lxa(mode),
            Mnemonic::XAA => self.xaa(mode),
            _ => {},
        }
    }

    /// Executes one of the remaining undocumented instructions.
    fn execute_unstable(&mut self, opcode: &OpCode)
        requires
            old(self)@.wf(),
            is_unstable(opcode.mnemonic),
        ensures
            final(self)@ == old(self)@.execute_unstable(*opcode),
            final(self)@.wf(),
    {
        reveal(CpuState::execute_unstable);
        let mode = opcode.mode;
        match opcode.mnemonic {
            Mnemonic::AHX => self.ahx(mode),
            Mnemonic::ALR => self.alr(mode),
            Mnemonic::ANC => self.anc(mode),
            Mnemonic::ARR => self.arr(mode),
            Mnemonic::AXS => self.axs(mode),
            Mnemonic::LAS => self.las(mode),
            Mnemonic::SHX => self.shx(),
            Mnemonic::SHY => self.shy(),
            Mnemonic::TAS => self.tas(),
            _ => {},
        }
    }

    /// Executes the instruction `opcode`, with the program counter on its
    /// first operand byte.
    fn execute(&mut self, opcode: &OpCode)
        requires
            old(self)@.wf(),
        ensures
            final(self)@ == old(self)@.execute(*opcode),
            final(self)@.wf(),
    {
        match opcode.mnemonic {
            Mnemonic::ADC
            | Mnemonic::SBC
            | Mnemonic::AND
            | Mnemonic::EOR
            | Mnemonic::ORA
            | Mnemonic::BIT
            | Mnemonic::CMP
            | Mnemonic::CPX
            | Mnemonic::CPY => self.execute_arithmetic(opcode),
            Mnemonic::ASL
            | Mnemonic::LSR
            | Mnemonic::ROL
            | Mnemonic::ROR
            | Mnemonic::INC
            | Mnemonic::DEC
            | Mnemonic::INX
            | Mnemonic::INY
            | Mnemonic::DEX
            | Mnemonic::DEY => self.execute_shift(opcode),
            Mnemonic::BCC
            | Mnemonic::BCS
            | Mnemonic::BEQ
            | Mnemonic::BMI
            | Mnemonic::BNE
            | Mnemonic::BPL
            | Mnemonic::BVC
            | Mnemonic::BVS => self.execute_branch(opcode),
            Mnemonic::CLC
            | Mnemonic::CLD
            | Mnemonic::CLI
            | Mnemonic::CLV
            | Mnemonic::SEC
            | Mnemonic::SED
            | Mnemonic::SEI
            | Mnemonic::NOP
            | Mnemonic::BRK => self.execute_flag(opcode),
            Mnemonic::JMP
            | Mnemonic::JSR
            | Mnemonic::RTI
            | Mnemonic::RTS
            | Mnemonic::PHA
            | Mnemonic::PHP
            | Mnemonic::PLA
            | Mnemonic::PLP => self.execute_jump(opcode),
            Mnemonic::LDA
            | Mnemonic::LDX
            | Mnemonic::LDY
            | Mnemonic::STA
            | Mnemonic::STX
            | Mnemonic::STY
            | Mnemonic::TAX
            | Mnemonic::TAY
            | Mnemonic::TSX
            | Mnemonic::TXA
            | Mnemonic::TXS
            | Mnemonic::TYA => self.execute_transfer(opcode),
            Mnemonic::DCP
            | Mnemonic::ISB
            | Mnemonic::RLA
            | Mnemonic::RRA
            | Mnemonic::SLO
            | Mnemonic::SRE
            | Mnemonic::LAX
            | Mnemonic::SAX
            | Mnemonic::LXA
            | Mnemonic::XAA => self.execute_combined(opcode),
            _ => self.execute_unstable(opcode),
        }
    }

    /// Runs one step of the machine: fetches, decodes and executes one
    /// instruction, moves the program counter past it, and lets its cycles
    /// pass on the bus.
    ///
    /// A byte without an entry in the instruction table, a read or a write
    /// that the bus forbids, and a mode without the operand that an
    /// instruction needs are fatal. The step then returns
    /// `StepOutcome::Fault`, which stands for the halt: the byte is neither
    /// skipped nor taken for another instruction, the defect stays on
    /// record, and every later step returns it again without touching the
    /// machine.
    pub fn step(&mut self) -> (outcome: StepOutcome)
        requires
            old(self)@.wf(),
        ensures
            (final(self)@, outcome) == old(self)@.step(),
            final(self)@.wf(),
    {
        reveal(CpuState::step);
        if let Some(fault) = self.fault {
            return StepOutcome::Fault(fault);
        }
        let code = self.mem_read(self.program_counter);
        self.program_counter = self.program_counter.wrapping_add(1);
        if let Some(fault) = self.fault {
            return StepOutcome::Fault(fault);
        }
        let pc_state = self.program_counter;

        match lookup(code) {
            None => {
                self.raise(Fault::UnknownOpcode(code));
                StepOutcome::Fault(Fault::UnknownOpcode(code))
            },
            Some(opcode) => {
                if let Mnemonic::BRK = opcode.mnemonic {
                    return StepOutcome::Break;
                }
                proof {
                    lemma_lookup_entry(code);
                }
                self.execute(&opcode);
                if pc_state == self.program_counter {
                    self.program_counter = self.program_counter.wrapping_add(
                        (opcode.len - 1) as u16,
                    );
                }
                if let Some(fault) = self.fault {
                    return StepOutcome::Fault(fault);
                }
                if self.bus.tick(opcode.cycles) {
                    StepOutcome::FrameReady
                } else {
                    StepOutcome::Continue
                }
            },
        }
    }

    /// Runs the machine for at most `budget` steps. The run ends early with
    /// the first step that does not end in `Continue`: one that leaves a
    /// frame to be shown, a `BRK`, or a defect. A defect is fatal: the
    /// report's `StepOutcome::Fault` stands for the halt of the emulation,
    /// and a run on a machine with a defect on record does nothing.
    pub fn run(&mut self, budget: u32) -> (report: RunReport)
        requires
            old(self)@.wf(),
        ensures
            (final(self)@, report.steps as nat, report.outcome) == old(self)@.run(budget as nat),
            final(self)@.wf(),
    {
        let mut steps: u32 = 0;
        let mut outcome = StepOutcome::Continue;
        while steps < budget && outcome == StepOutcome::Continue
            invariant
                steps <= budget,
                self@.wf(),
                outcome is Continue ==> old(self)@.run(budget as nat) == ({
                    let rest = self@.run((budget - steps) as nat);
                    (rest.0, (rest.1 + steps) as nat, rest.2)
                }),
                !(outcome is Continue) ==> old(self)@.run(budget as nat) == (
                    self@,
                    steps as nat,
                    outcome,
                ),
            decreases budget - steps,
        {
            outcome = self.step();
            steps += 1;
        }
        RunReport { steps, outcome }
    }

    /// Writes `program` to memory from `PROGRAM_START` on and points the
    /// reset vector, in the cartridge's ROM, at it.
    pub fn load(&mut self, program: Vec<u8>)
        requires
            old(self)@.wf(),
            old(self)@.has_reset_vector(),
            program.len() <= PROGRAM_MAX_LEN,
        ensures
            final(self)@ == old(self)@.load(program@),
            final(self)@.wf(),
            final(self)@.has_reset_vector(),
    {
        let mut i: usize = 0;
        while i < program.len()
            invariant
                i <= program.len(),
                program.len() <= PROGRAM_MAX_LEN,
                self@.wf(),
                self@ == old(self)@.load_bytes(program@, i as nat),
                self@.bus.prg_rom == old(self)@.bus.prg_rom,
            decreases program.len() - i,
        {
            proof {
                lemma_write_keeps_rom(self@.bus, (PROGRAM_START + i) as u16, program@[i as int]);
            }
            self.mem_write(PROGRAM_START + i as u16, program[i]);
            i += 1;
        }
        if self.fault.is_none() {
            self.bus.patch_rom(RESET_VECTOR, (PROGRAM_START % 256) as u8);
            self.bus.patch_rom(RESET_VECTOR + 1, (PROGRAM_START / 256) as u8);
        }
    }

    /// Loads `program`, resets the processor and runs it for at most
    /// `budget` steps.
    pub fn load_and_run(&mut self, program: Vec<u8>, budget: u32) -> (report: RunReport)
        requires
            old(self)@.wf(),
            old(self)@.has_reset_vector(),
            program.len() <= PROGRAM_MAX_LEN,
        ensures
            (final(self)@, report.steps as nat, report.outcome) == old(self)@.load(
                program@,
            ).reset().run(budget as nat),
            final(self)@.wf(),
    {
        self.load(program);
        self.reset();
        self.run(budget)
    }
}

} // verus!
