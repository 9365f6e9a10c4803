//! What a run does: how it halts on a defect, what loading a program
//! leaves behind, and what a first small program does when it runs.

use vstd::prelude::*;
use crate::bus::{
    law_memory_reads_change_nothing,
    BusState,
    PRG_ROM_START,
    RAM_MIRRORS_END,
    RAM_SIZE,
};
use crate::cpu::flags::{CpuFlags, NEGATIV, ZERO};
use crate::cpu::laws::{flags_follow, lemma_flags_follow, lemma_write_ram};
use crate::cpu::state::{CpuState, PROGRAM_START, RESET_VECTOR, STACK_RESET, STATUS_RESET};
use crate::cpu::{AddressingMode, Fault, StepOutcome};
use crate::opcodes::{spec_lookup, Mnemonic, OpCode};
use crate::ppu::timing::{lemma_quiet_for, lemma_ticks_add, lemma_ticks_counters, quiet_for};

verus! {

/// `addr` lies in RAM or ROM and reads `byte`.
pub open spec fn memory_holds(bus: BusState, addr: u16, byte: u8) -> bool {
    &&& addr <= RAM_MIRRORS_END || addr >= PRG_ROM_START
    &&& bus.can_read(addr)
    &&& bus.read(addr).0 == byte
}

/// The address `offset` bytes after `at`, wrapping at the end of the
/// address space.
pub open spec fn address_after(at: u16, offset: int) -> u16 {
    ((at + offset) % 0x1_0000) as u16
}

/// The bytes of `program` stand in RAM or ROM from `at` on.
pub open spec fn holds_program(bus: BusState, at: u16, program: Seq<u8>) -> bool {
    forall|i: int|
        0 <= i < program.len() ==> memory_holds(bus, address_after(at, i), #[trigger] program[i])
}

/// What RAM and ROM hold does not depend on the graphics unit, the audio
/// unit, the controller or the cycle counter.
pub proof fn lemma_memory_holds_elsewhere(bus: BusState, other: BusState, addr: u16, byte: u8)
    requires
        memory_holds(bus, addr, byte),
        other.ram == bus.ram,
        other.prg_rom == bus.prg_rom,
    ensures
        memory_holds(other, addr, byte),
{
    reveal(BusState::can_read);
    reveal(BusState::read);
}

/// A fetch from RAM or ROM changes nothing but the program counter.
pub proof fn lemma_fetch(s: CpuState, byte: u8)
    requires
        s.wf(),
        s.fault is None,
        memory_holds(s.bus, s.program_counter, byte),
    ensures
        s.fetch() == (byte, CpuState { program_counter: s.program_counter.wrapping_add(1), ..s }),
        s.read(s.program_counter) == (byte, s),
{
    law_memory_reads_change_nothing(s.bus, s.program_counter);
}

/// How a step ends once its instruction ran without a defect.
pub open spec fn after_cycles(done: CpuState, cycles: u8) -> (CpuState, StepOutcome) {
    (
        CpuState { bus: done.bus.tick(cycles), ..done },
        if done.bus.frame_due(cycles) {
            StepOutcome::FrameReady
        } else {
            StepOutcome::Continue
        },
    )
}

/// A step on `LDA #value`: the value is in the accumulator, Zero and
/// Negative follow it, the program counter is two bytes on, and two cycles
/// have passed.
pub proof fn law_step_lda_immediate(s: CpuState, value: u8)
    requires
        s.wf(),
        s.fault is None,
        memory_holds(s.bus, s.program_counter, 0xA9),
        memory_holds(s.bus, address_after(s.program_counter, 1), value),
    ensures
        s.step() == after_cycles(
            CpuState {
                reg_a: value,
                status: s.status.spec_with_zero_n_negative(value),
                program_counter: address_after(s.program_counter, 2),
                ..s
            },
            2,
        ),
{
    reveal(CpuState::step);
    reveal(spec_lookup);
    reveal(CpuState::execute_transfer);
    reveal(CpuState::lda);
    lemma_fetch(s, 0xA9);
    let fetched = s.fetch().1;
    lemma_fetch(fetched, value);
    assert(spec_lookup(0xA9) == Some(
        OpCode {
            code: 0xA9,
            mnemonic: Mnemonic::LDA,
            len: 2,
            cycles: 2,
            mode: AddressingMode::Immediate,
        },
    ));
}

/// A step on `TAX`: X is the accumulator, Zero and Negative follow it, the
/// program counter is one byte on, and two cycles have passed.
pub proof fn law_step_tax(s: CpuState)
    requires
        s.wf(),
        s.fault is None,
        memory_holds(s.bus, s.program_counter, 0xAA),
    ensures
        s.step() == after_cycles(
            CpuState {
                reg_x: s.reg_a,
                status: s.status.spec_with_zero_n_negative(s.reg_a),
                program_counter: address_after(s.program_counter, 1),
                ..s
            },
            2,
        ),
{
    reveal(CpuState::step);
    reveal(spec_lookup);
    reveal(CpuState::execute_transfer);
    lemma_fetch(s, 0xAA);
    assert(spec_lookup(0xAA) == Some(
        OpCode {
            code: 0xAA,
            mnemonic: Mnemonic::TAX,
            len: 1,
            cycles: 2,
            mode: AddressingMode::NoneAddressing,
        },
    ));
}

/// A step on `INX`: X is one more, wrapping from 0xFF to 0, Zero and
/// Negative follow it, the program counter is one byte on, and two cycles
/// have passed.
pub proof fn law_step_inx(s: CpuState)
    requires
        s.wf(),
        s.fault is None,
        memory_holds(s.bus, s.program_counter, 0xE8),
    ensures
        s.step() == after_cycles(
            CpuState {
                reg_x: s.reg_x.wrapping_add(1),
                status: s.status.spec_with_zero_n_negative(s.reg_x.wrapping_add(1)),
                program_counter: address_after(s.program_counter, 1),
                ..s
            },
            2,
        ),
{
    reveal(CpuState::step);
    reveal(spec_lookup);
    reveal(CpuState::execute_shift);
    lemma_fetch(s, 0xE8);
    assert(spec_lookup(0xE8) == Some(
        OpCode {
            code: 0xE8,
            mnemonic: Mnemonic::INX,
            len: 1,
            cycles: 2,
            mode: AddressingMode::NoneAddressing,
        },
    ));
}

/// A step on `BRK` ends the run: only the program counter has moved, past
/// the opcode byte, and no cycle has passed.
pub proof fn law_step_brk(s: CpuState)
    requires
        s.wf(),
        s.fault is None,
        memory_holds(s.bus, s.program_counter, 0x00),
    ensures
        s.step() == (
            CpuState { program_counter: address_after(s.program_counter, 1), ..s },
            StepOutcome::Break,
        ),
{
    reveal(CpuState::step);
    reveal(spec_lookup);
    lemma_fetch(s, 0x00);
    assert(spec_lookup(0x00) == Some(
        OpCode {
            code: 0x00,
            mnemonic: Mnemonic::BRK,
            len: 1,
            cycles: 7,
            mode: AddressingMode::NoneAddressing,
        },
    ));
}

/// A defect is final. A step on a machine with a defect on record changes
/// nothing and reports the defect, and so does a run of any length.
pub proof fn law_defect_is_final(s: CpuState, budget: nat)
    requires
        s.fault is Some,
        budget >= 1,
    ensures
        s.step() == (s, StepOutcome::Fault(s.fault->0)),
        s.run(budget) == (s, 1nat, StepOutcome::Fault(s.fault->0)),
{
    reveal(CpuState::step);
}

/// A byte without an instruction halts the machine. If the byte fetched
/// has no entry in the instruction table, the step records it as a defect
/// and does nothing else: the program counter stands after the byte, no
/// instruction is executed in its place and no cycle passes.
pub proof fn law_unknown_opcode_halts(s: CpuState)
    requires
        s.fault is None,
        s.fetch().1.fault is None,
        spec_lookup(s.fetch().0) is None,
    ensures
        s.step() == (
            CpuState { fault: Some(Fault::UnknownOpcode(s.fetch().0)), ..s.fetch().1 },
            StepOutcome::Fault(Fault::UnknownOpcode(s.fetch().0)),
        ),
{
    reveal(CpuState::step);
}

/// The program `LDA #value; TAX; INX; BRK`.
pub open spec fn lda_tax_inx_brk(value: u8) -> Seq<u8> {
    seq![0xA9u8, value, 0xAAu8, 0xE8u8, 0x00u8]
}

/// While the graphics unit is quiet, an instruction that took two cycles
/// ends its step in `Continue`; the cycles change neither RAM nor ROM, and
/// the unit stays quiet for the rest of the span.
pub proof fn lemma_quiet_step(done: CpuState, dots: nat)
    requires
        done.wf(),
        quiet_for(done.bus.ppu, dots),
        dots >= 6,
    ensures
        after_cycles(done, 2) == (
            CpuState { bus: done.bus.tick(2), ..done },
            StepOutcome::Continue,
        ),
        done.bus.tick(2).wf(),
        done.bus.tick(2).ram == done.bus.ram,
        done.bus.tick(2).prg_rom == done.bus.prg_rom,
        quiet_for(done.bus.tick(2).ppu, (dots - 6) as nat),
{
    let ppu = done.bus.ppu;
    assert(ppu.ticks(0).nmi is None);
    assert(ppu.ticks(6).nmi is None);
    lemma_ticks_counters(ppu, 6);
    assert forall|k: nat| k <= dots - 6 implies (#[trigger] ppu.ticks(6).ticks(k)).nmi is None by {
        lemma_ticks_add(ppu, 6, k);
        assert(ppu.ticks(6 + k).nmi is None);
    }
}

/// A run whose first step ends in `Continue` is that step and then a run
/// on one step less.
pub proof fn lemma_run_on(s: CpuState, next: CpuState, budget: nat)
    requires
        s.step() == (next, StepOutcome::Continue),
        budget >= 1,
    ensures
        s.run(budget) == ({
            let rest = next.run((budget - 1) as nat);
            (rest.0, (rest.1 + 1) as nat, rest.2)
        }),
{
}

/// A run whose first step does not end in `Continue` is that step.
pub proof fn lemma_run_ends(s: CpuState, last: CpuState, outcome: StepOutcome, budget: nat)
    requires
        s.step() == (last, outcome),
        !(outcome is Continue),
        budget >= 1,
    ensures
        s.run(budget) == (last, 1nat, outcome),
{
}

/// The program `LDA #value; TAX; INX; BRK` runs to its end. On a machine
/// without a defect whose program counter stands on the program, with a
/// graphics unit that raises no interrupt during the six cycles that the
/// program takes, a run of four steps or more ends cleanly with the
/// fourth step, on `BRK`. It leaves the value in the accumulator, the
/// value plus one in X, Zero and Negative following X, the program
/// counter after the `BRK`, and six cycles passed on the bus; it changes
/// nothing else.
pub proof fn law_run_lda_tax_inx_brk(s: CpuState, value: u8, budget: nat)
    requires
        s.wf(),
        s.fault is None,
        holds_program(s.bus, s.program_counter, lda_tax_inx_brk(value)),
        quiet_for(s.bus.ppu, 18),
        budget >= 4,
    ensures
        s.run(budget) == (
            CpuState {
                reg_a: value,
                reg_x: value.wrapping_add(1),
                status: s.status.spec_with_zero_n_negative(value).spec_with_zero_n_negative(
                    value,
                ).spec_with_zero_n_negative(value.wrapping_add(1)),
                program_counter: address_after(s.program_counter, 5),
                bus: s.bus.tick(2).tick(2).tick(2),
                ..s
            },
            4nat,
            StepOutcome::Break,
        ),
        flags_follow(s.run(budget).0.status, value.wrapping_add(1)),
{
    let program = lda_tax_inx_brk(value);
    let at = s.program_counter;
    assert(memory_holds(s.bus, address_after(at, 0), program[0]));
    assert(memory_holds(s.bus, address_after(at, 1), program[1]));
    assert(memory_holds(s.bus, address_after(at, 2), program[2]));
    assert(memory_holds(s.bus, address_after(at, 3), program[3]));
    assert(memory_holds(s.bus, address_after(at, 4), program[4]));

    let done1 = CpuState {
        reg_a: value,
        status: s.status.spec_with_zero_n_negative(value),
        program_counter: address_after(at, 2),
        ..s
    };
    let s1 = CpuState { bus: s.bus.tick(2), ..done1 };
    law_step_lda_immediate(s, value);
    lemma_quiet_step(done1, 18);
    lemma_memory_holds_elsewhere(s.bus, s1.bus, address_after(at, 2), 0xAA);

    let done2 = CpuState {
        reg_x: value,
        status: s1.status.spec_with_zero_n_negative(value),
        program_counter: address_after(at, 3),
        ..s1
    };
    let s2 = CpuState { bus: s1.bus.tick(2), ..done2 };
    law_step_tax(s1);
    lemma_quiet_step(done2, 12);
    lemma_memory_holds_elsewhere(s.bus, s2.bus, address_after(at, 3), 0xE8);

    let done3 = CpuState {
        reg_x: value.wrapping_add(1),
        status: s2.status.spec_with_zero_n_negative(value.wrapping_add(1)),
        program_counter: address_after(at, 4),
        ..s2
    };
    let s3 = CpuState { bus: s2.bus.tick(2), ..done3 };
    law_step_inx(s2);
    lemma_quiet_step(done3, 6);
    lemma_memory_holds_elsewhere(s.bus, s3.bus, address_after(at, 4), 0x00);

    let s4 = CpuState { program_counter: address_after(at, 5), ..s3 };
    law_step_brk(s3);

    lemma_run_ends(s3, s4, StepOutcome::Break, (budget - 3) as nat);
    lemma_run_on(s2, s3, (budget - 2) as nat);
    lemma_run_on(s1, s2, (budget - 1) as nat);
    lemma_run_on(s, s1, budget);
    lemma_flags_follow();
}

/// Writing the first `n` bytes of a program that fits into RAM meets no
/// defect and changes nothing but RAM, where the bytes then stand.
pub proof fn lemma_load_bytes(s: CpuState, program: Seq<u8>, n: nat)
    requires
        s.wf(),
        s.fault is None,
        n <= program.len() <= RAM_SIZE,
    ensures
        ({
            let t = s.load_bytes(program, n);
            &&& t.wf()
            &&& t == (CpuState { bus: BusState { ram: t.bus.ram, ..s.bus }, ..s })
            &&& forall|i: int|
                0 <= i < n ==> t.bus.ram[(PROGRAM_START + i) % (RAM_SIZE as int)] == program[i]
        }),
    decreases n,
{
    if n > 0 {
        let before = s.load_bytes(program, (n - 1) as nat);
        lemma_load_bytes(s, program, (n - 1) as nat);
        lemma_write_ram(before, (PROGRAM_START + n - 1) as u16, program[n - 1]);
    }
}

/// Loading a program that fits into RAM, on a machine without a defect
/// whose cartridge holds the reset vector: no defect is met; the program
/// stands in memory from `PROGRAM_START` on; the reset vector points at
/// `PROGRAM_START`, so that a reset puts the program counter there; and
/// nothing changes but RAM and the two bytes of the vector.
pub proof fn law_load(s: CpuState, program: Seq<u8>)
    requires
        s.wf(),
        s.fault is None,
        s.has_reset_vector(),
        program.len() <= RAM_SIZE,
    ensures
        ({
            let t = s.load(program);
            &&& t.wf()
            &&& t.fault is None
            &&& t.has_reset_vector()
            &&& t == (CpuState {
                bus: BusState { ram: t.bus.ram, prg_rom: t.bus.prg_rom, ..s.bus },
                ..s
            })
            &&& holds_program(t.bus, PROGRAM_START, program)
            &&& t.read_u16(RESET_VECTOR) == (PROGRAM_START, t)
            &&& t.reset() == (CpuState {
                reg_a: 0,
                reg_x: 0,
                reg_y: 0,
                stack_pointer: STACK_RESET,
                status: CpuFlags { bits: STATUS_RESET },
                program_counter: PROGRAM_START,
                ..t
            })
        }),
{
    reveal(BusState::can_read);
    reveal(BusState::read);
    lemma_load_bytes(s, program, program.len());
    let t = s.load(program);
    assert forall|i: int| 0 <= i < program.len() implies memory_holds(
        t.bus,
        address_after(PROGRAM_START, i),
        #[trigger] program[i],
    ) by {
        assert(address_after(PROGRAM_START, i) == PROGRAM_START + i);
    }
}

/// Loading `LDA #$C0; TAX; INX; BRK` and running it from reset. On a
/// machine without a defect whose cartridge holds the reset vector, with a
/// graphics unit that raises no interrupt during the six cycles that the
/// program takes, and with a budget of four steps or more, the run ends
/// cleanly on `BRK` after four steps, with 0xC0 in the accumulator, 0xC1
/// in X, Negative set and Zero clear.
pub proof fn law_load_and_run(s: CpuState, budget: nat)
    requires
        s.wf(),
        s.fault is None,
        s.has_reset_vector(),
        quiet_for(s.bus.ppu, 18),
        budget >= 4,
    ensures
        ({
            let r = s.load(lda_tax_inx_brk(0xC0)).reset().run(budget);
            &&& r.1 == 4
            &&& r.2 is Break
            &&& r.0.fault is None
            &&& r.0.reg_a == 0xC0
            &&& r.0.reg_x == 0xC1
            &&& r.0.status.spec_contains(NEGATIV)
            &&& !r.0.status.spec_contains(ZERO)
        }),
{
    let program = lda_tax_inx_brk(0xC0);
    law_load(s, program);
    let started = s.load(program).reset();
    law_run_lda_tax_inx_brk(started, 0xC0, budget);
    assert(0xC1u8 & 0b1000_0000 != 0) by (bit_vector);
}

/// The same on a machine just built around a bus just built around a
/// cartridge that holds the reset vector: the graphics unit starts at the
/// first dot of a frame, long before the vertical blank.
pub proof fn law_fresh_machine_loads_and_runs(bus: BusState, budget: nat)
    requires
        bus.wf(),
        bus.ppu.nmi is None,
        bus.ppu.scanline == 0,
        bus.ppu.dot == 0,
        CpuState::initial(bus).has_reset_vector(),
        budget >= 4,
    ensures
        ({
            let r = CpuState::initial(bus).load(lda_tax_inx_brk(0xC0)).reset().run(budget);
            &&& r.1 == 4
            &&& r.2 is Break
            &&& r.0.fault is None
            &&& r.0.reg_a == 0xC0
            &&& r.0.reg_x == 0xC1
            &&& r.0.status.spec_contains(NEGATIV)
            &&& !r.0.status.spec_contains(ZERO)
        }),
{
    lemma_quiet_for(bus.ppu, 18);
    law_load_and_run(CpuState::initial(bus), budget);
}

} // verus!
