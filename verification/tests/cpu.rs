use nes_emulator::bus::Bus;
use nes_emulator::cartridge::{Mirroring, Rom};
use nes_emulator::cpu::flags::{
    CpuFlags, BREAK, BREAK2, CARRY, DECIMAL_MODE, INTERRUPT_DISABLE, NEGATIV, OVERFLOW, ZERO,
};
use nes_emulator::cpu::{AddressingMode, Fault, Mem, RunReport, StepOutcome, CPU};
use nes_emulator::opcodes::{lookup, Mnemonic, OpCode};

/// A machine whose ROM holds `program` from 0x8000 on, zeros after it, and
/// a reset vector that points at 0x8000; already reset.
fn machine(program: &[u8]) -> CPU {
    let mut prg_rom = vec![0u8; 0x8000];
    prg_rom[..program.len()].copy_from_slice(program);
    prg_rom[0x7FFC] = 0x00;
    prg_rom[0x7FFD] = 0x80;
    let rom = Rom {
        prg_rom,
        chr_rom: vec![0u8; 0x2000],
        mapper: 0,
        screen_mirroring: Mirroring::HORIZONTAL,
        is_chr_ram: true,
    };
    let mut cpu = CPU::new(Bus::new(rom));
    cpu.reset();
    cpu
}

/// Runs `program` from reset until it ends.
fn run(program: &[u8]) -> CPU {
    let mut cpu = machine(program);
    let report = cpu.run(10_000);
    assert_eq!(report.outcome, StepOutcome::Break);
    cpu
}

fn flag(cpu: &CPU, mask: u8) -> bool {
    cpu.status.contains(mask)
}

#[test]
fn cpu_new_and_reset() {
    let mut cpu = machine(&[]);
    assert_eq!(cpu.program_counter, 0x8000);
    assert_eq!(cpu.stack_pointer, 0xFD);
    assert_eq!(cpu.status.bits(), 0b0010_0100);
    assert_eq!((cpu.reg_a, cpu.reg_x, cpu.reg_y), (0, 0, 0));
    assert_eq!(cpu.fault, None);
    cpu.reg_a = 1;
    cpu.reg_x = 2;
    cpu.reg_y = 3;
    cpu.stack_pointer = 0x10;
    cpu.status = CpuFlags::from_bits_truncate(0xFF);
    cpu.program_counter = 0x1234;
    cpu.reset();
    assert_eq!(cpu.program_counter, 0x8000);
    assert_eq!(cpu.stack_pointer, 0xFD);
    assert_eq!(cpu.status.bits(), 0b0010_0100);
    assert_eq!((cpu.reg_a, cpu.reg_x, cpu.reg_y), (0, 0, 0));
}

#[test]
fn cpu_runs_lda_tax_inx_brk() {
    let cpu = run(&[0xA9, 0xC0, 0xAA, 0xE8, 0x00]);
    assert_eq!(cpu.reg_x, 0xC1);
    assert_eq!(cpu.reg_a, 0xC0);
    assert_eq!(cpu.fault, None);
    assert!(flag(&cpu, NEGATIV));
    assert!(!flag(&cpu, ZERO));
    assert_eq!(cpu.program_counter, 0x8005);
}

#[test]
fn cpu_run_counts_steps_and_stops_at_the_budget() {
    let mut cpu = machine(&[0xA9, 0xC0, 0xAA, 0xE8, 0x00]);
    assert_eq!(cpu.run(0), RunReport { steps: 0, outcome: StepOutcome::Continue });
    assert_eq!(cpu.program_counter, 0x8000);
    assert_eq!(cpu.run(2), RunReport { steps: 2, outcome: StepOutcome::Continue });
    assert_eq!(cpu.program_counter, 0x8003);
    assert_eq!(cpu.run(100), RunReport { steps: 2, outcome: StepOutcome::Break });
    assert_eq!(cpu.reg_x, 0xC1);
}

#[test]
fn cpu_step_lets_the_cycles_pass() {
    let mut cpu = machine(&[0xA9, 0x05, 0x8D, 0x00, 0x02, 0x00]);
    assert_eq!(cpu.step(), StepOutcome::Continue);
    assert_eq!(cpu.bus.cycles, 2);
    assert_eq!((cpu.bus.ppu.scanline, cpu.bus.ppu.cycles), (0, 6));
    assert_eq!(cpu.step(), StepOutcome::Continue);
    assert_eq!(cpu.bus.cycles, 6);
    assert_eq!(cpu.bus.cpu_vram[0x200], 5);
    assert_eq!(cpu.step(), StepOutcome::Break);
    assert_eq!(cpu.bus.cycles, 6);
    assert_eq!(cpu.program_counter, 0x8006);
}

#[test]
fn cpu_lda_sets_zero_and_negative() {
    let cpu = run(&[0xA9, 0x00, 0x00]);
    assert!(flag(&cpu, ZERO));
    assert!(!flag(&cpu, NEGATIV));
    let cpu = run(&[0xA9, 0x80, 0x00]);
    assert!(!flag(&cpu, ZERO));
    assert!(flag(&cpu, NEGATIV));
    let cpu = run(&[0xA9, 0x7F, 0x00]);
    assert!(!flag(&cpu, ZERO));
    assert!(!flag(&cpu, NEGATIV));
}

#[test]
fn cpu_adc_boundary_cases() {
    // 0x50 + 0x50 = 0xA0: overflow, no carry
    let cpu = run(&[0xA9, 0x50, 0x69, 0x50, 0x00]);
    assert_eq!(cpu.reg_a, 0xA0);
    assert!(flag(&cpu, OVERFLOW));
    assert!(!flag(&cpu, CARRY));
    assert!(flag(&cpu, NEGATIV));
    // 0xD0 + 0x50 = 0x120: carry, no overflow
    let cpu = run(&[0xA9, 0xD0, 0x69, 0x50, 0x00]);
    assert_eq!(cpu.reg_a, 0x20);
    assert!(!flag(&cpu, OVERFLOW));
    assert!(flag(&cpu, CARRY));
    // 0x50 + 0x10 = 0x60: neither
    let cpu = run(&[0xA9, 0x50, 0x69, 0x10, 0x00]);
    assert_eq!(cpu.reg_a, 0x60);
    assert!(!flag(&cpu, OVERFLOW));
    assert!(!flag(&cpu, CARRY));
    // 0xD0 + 0x90 = 0x160: both
    let cpu = run(&[0xA9, 0xD0, 0x69, 0x90, 0x00]);
    assert_eq!(cpu.reg_a, 0x60);
    assert!(flag(&cpu, OVERFLOW));
    assert!(flag(&cpu, CARRY));
    // the carry comes in
    let cpu = run(&[0x38, 0xA9, 0xFF, 0x69, 0x00, 0x00]);
    assert_eq!(cpu.reg_a, 0x00);
    assert!(flag(&cpu, CARRY));
    assert!(flag(&cpu, ZERO));
}

#[test]
fn cpu_sbc_boundary_cases() {
    // 0x50 - 0xF0 = 0x60, borrow
    let cpu = run(&[0x38, 0xA9, 0x50, 0xE9, 0xF0, 0x00]);
    assert_eq!(cpu.reg_a, 0x60);
    assert!(!flag(&cpu, CARRY));
    assert!(!flag(&cpu, OVERFLOW));
    // 0x50 - 0xB0 = 0xA0, borrow and overflow
    let cpu = run(&[0x38, 0xA9, 0x50, 0xE9, 0xB0, 0x00]);
    assert_eq!(cpu.reg_a, 0xA0);
    assert!(!flag(&cpu, CARRY));
    assert!(flag(&cpu, OVERFLOW));
    // 0xD0 - 0x70 = 0x60, overflow
    let cpu = run(&[0x38, 0xA9, 0xD0, 0xE9, 0x70, 0x00]);
    assert_eq!(cpu.reg_a, 0x60);
    assert!(flag(&cpu, CARRY));
    assert!(flag(&cpu, OVERFLOW));
    // without carry one more is taken away
    let cpu = run(&[0x18, 0xA9, 0x05, 0xE9, 0x02, 0x00]);
    assert_eq!(cpu.reg_a, 0x02);
    assert!(flag(&cpu, CARRY));
    // the undocumented twin
    let cpu = run(&[0x38, 0xA9, 0x05, 0xEB, 0x05, 0x00]);
    assert_eq!(cpu.reg_a, 0x00);
    assert!(flag(&cpu, ZERO));
    assert!(flag(&cpu, CARRY));
}

#[test]
fn cpu_adc_then_sbc_restores_the_accumulator() {
    for a in [0x00u8, 0x01, 0x50, 0x7F, 0x80, 0xD0, 0xFF] {
        for b in [0x00u8, 0x01, 0x50, 0x7F, 0x80, 0x90, 0xFF] {
            // CLC; LDA #a; ADC #b; SEC; SBC #b
            let cpu = run(&[0x18, 0xA9, a, 0x69, b, 0x38, 0xE9, b, 0x00]);
            assert_eq!(cpu.reg_a, a, "a = {:02x}, b = {:02x}", a, b);
        }
    }
}

#[test]
fn cpu_adc_with_carry_then_sbc_restores_the_accumulator_without_overflow() {
    for a in [0x00u8, 0x01, 0x50, 0x7F, 0x80, 0xD0, 0xFE] {
        for b in [0x00u8, 0x01, 0x2F, 0x50, 0x7F, 0x80, 0xFF] {
            // SEC; LDA #a; ADC #b; SBC #b
            let mut cpu = machine(&[0x38, 0xA9, a, 0x69, b, 0xE9, b, 0x00]);
            cpu.run(3);
            let carried = flag(&cpu, CARRY);
            assert_eq!(carried, a as u16 + b as u16 + 1 > 0xFF);
            cpu.run(1);
            if carried {
                assert_eq!(cpu.reg_a, a.wrapping_add(1), "a = {:02x}, b = {:02x}", a, b);
            } else {
                assert_eq!(cpu.reg_a, a, "a = {:02x}, b = {:02x}", a, b);
            }
        }
    }
}

#[test]
fn cpu_logic_instructions() {
    let cpu = run(&[0xA9, 0b1100_1100, 0x29, 0b1010_1010, 0x00]);
    assert_eq!(cpu.reg_a, 0b1000_1000);
    assert!(flag(&cpu, NEGATIV));
    let cpu = run(&[0xA9, 0b1100_1100, 0x09, 0b1010_1010, 0x00]);
    assert_eq!(cpu.reg_a, 0b1110_1110);
    let cpu = run(&[0xA9, 0b1100_1100, 0x49, 0b1100_1100, 0x00]);
    assert_eq!(cpu.reg_a, 0);
    assert!(flag(&cpu, ZERO));
}

#[test]
fn cpu_shifts_on_the_accumulator() {
    let cpu = run(&[0xA9, 0b1000_0001, 0x0A, 0x00]);
    assert_eq!(cpu.reg_a, 0b0000_0010);
    assert!(flag(&cpu, CARRY));
    let cpu = run(&[0xA9, 0b1000_0001, 0x4A, 0x00]);
    assert_eq!(cpu.reg_a, 0b0100_0000);
    assert!(flag(&cpu, CARRY));
    assert!(!flag(&cpu, NEGATIV));
    let cpu = run(&[0x38, 0xA9, 0b0100_0000, 0x2A, 0x00]);
    assert_eq!(cpu.reg_a, 0b1000_0001);
    assert!(!flag(&cpu, CARRY));
    assert!(flag(&cpu, NEGATIV));
    let cpu = run(&[0x38, 0xA9, 0b0000_0010, 0x6A, 0x00]);
    assert_eq!(cpu.reg_a, 0b1000_0001);
    assert!(!flag(&cpu, CARRY));
    let cpu = run(&[0x18, 0xA9, 0b0000_0001, 0x6A, 0x00]);
    assert_eq!(cpu.reg_a, 0);
    assert!(flag(&cpu, CARRY));
    assert!(flag(&cpu, ZERO));
}

#[test]
fn cpu_shifts_on_memory() {
    // LDA #$81; STA $10; ASL $10
    let cpu = run(&[0xA9, 0x81, 0x85, 0x10, 0x06, 0x10, 0x00]);
    assert_eq!(cpu.bus.cpu_vram[0x10], 0x02);
    assert_eq!(cpu.reg_a, 0x81);
    assert!(flag(&cpu, CARRY));
    assert!(!flag(&cpu, NEGATIV));
    // LSR $10
    let cpu = run(&[0xA9, 0x81, 0x85, 0x10, 0x46, 0x10, 0x00]);
    assert_eq!(cpu.bus.cpu_vram[0x10], 0x40);
    // SEC; ROL $0210
    let cpu = run(&[0xA9, 0x81, 0x8D, 0x10, 0x02, 0x38, 0x2E, 0x10, 0x02, 0x00]);
    assert_eq!(cpu.bus.cpu_vram[0x210], 0x03);
    assert!(flag(&cpu, CARRY));
    // CLC; ROR $10,X with X = 1
    let cpu = run(&[0xA2, 0x01, 0xA9, 0x81, 0x85, 0x11, 0x18, 0x76, 0x10, 0x00]);
    assert_eq!(cpu.bus.cpu_vram[0x11], 0x40);
    assert!(flag(&cpu, CARRY));
}

#[test]
fn cpu_inc_and_dec() {
    let cpu = run(&[0xA9, 0xFF, 0x85, 0x10, 0xE6, 0x10, 0x00]);
    assert_eq!(cpu.bus.cpu_vram[0x10], 0x00);
    assert!(flag(&cpu, ZERO));
    let cpu = run(&[0xC6, 0x10, 0x00]);
    assert_eq!(cpu.bus.cpu_vram[0x10], 0xFF);
    assert!(flag(&cpu, NEGATIV));
    let cpu = run(&[0xE8, 0xE8, 0xC8, 0x88, 0x88, 0xCA, 0x00]);
    assert_eq!(cpu.reg_x, 1);
    assert_eq!(cpu.reg_y, 0xFF);
    let cpu = run(&[0xA2, 0xFF, 0xE8, 0x00]);
    assert_eq!(cpu.reg_x, 0);
    assert!(flag(&cpu, ZERO));
}

#[test]
fn cpu_compare_instructions() {
    let cpu = run(&[0xA9, 0x10, 0xC9, 0x10, 0x00]);
    assert!(flag(&cpu, CARRY) && flag(&cpu, ZERO) && !flag(&cpu, NEGATIV));
    let cpu = run(&[0xA9, 0x10, 0xC9, 0x11, 0x00]);
    assert!(!flag(&cpu, CARRY) && !flag(&cpu, ZERO) && flag(&cpu, NEGATIV));
    let cpu = run(&[0xA2, 0x10, 0xE0, 0x0F, 0x00]);
    assert!(flag(&cpu, CARRY) && !flag(&cpu, ZERO) && !flag(&cpu, NEGATIV));
    let cpu = run(&[0xA0, 0x00, 0xC0, 0x01, 0x00]);
    assert!(!flag(&cpu, CARRY) && !flag(&cpu, ZERO) && flag(&cpu, NEGATIV));
    assert_eq!(cpu.reg_y, 0);
}

#[test]
fn cpu_bit_test() {
    // LDA #$C0; STA $10; LDA #$01; BIT $10
    let cpu = run(&[0xA9, 0xC0, 0x85, 0x10, 0xA9, 0x01, 0x24, 0x10, 0x00]);
    assert!(flag(&cpu, ZERO) && flag(&cpu, OVERFLOW) && flag(&cpu, NEGATIV));
    assert_eq!(cpu.reg_a, 0x01);
    let cpu = run(&[0xA9, 0x01, 0x85, 0x10, 0x24, 0x10, 0x00]);
    assert!(!flag(&cpu, ZERO) && !flag(&cpu, OVERFLOW) && !flag(&cpu, NEGATIV));
}

#[test]
fn cpu_flag_instructions() {
    let cpu = run(&[0x38, 0xF8, 0x78, 0x00]);
    assert!(flag(&cpu, CARRY) && flag(&cpu, DECIMAL_MODE) && flag(&cpu, INTERRUPT_DISABLE));
    let cpu = run(&[0x38, 0xF8, 0x78, 0x18, 0xD8, 0x58, 0x00]);
    assert!(!flag(&cpu, CARRY) && !flag(&cpu, DECIMAL_MODE) && !flag(&cpu, INTERRUPT_DISABLE));
    // LDA #$50; ADC #$50 sets overflow; CLV clears it
    let cpu = run(&[0xA9, 0x50, 0x69, 0x50, 0xB8, 0x00]);
    assert!(!flag(&cpu, OVERFLOW));
    assert_eq!(cpu.status.bits(), 0b1010_0100);
}

#[test]
fn cpu_branches() {
    // LDX #3; loop: DEX; BNE loop
    let cpu = run(&[0xA2, 0x03, 0xCA, 0xD0, 0xFD, 0x00]);
    assert_eq!(cpu.reg_x, 0);
    assert_eq!(cpu.program_counter, 0x8006);
    // BEQ not taken, then taken forward over LDA #1
    let cpu = run(&[0xA9, 0x01, 0xF0, 0x02, 0xA9, 0x00, 0xF0, 0x02, 0xA9, 0x01, 0x00]);
    assert_eq!(cpu.reg_a, 0);
    // BCC / BCS
    let cpu = run(&[0x18, 0x90, 0x01, 0x00, 0x38, 0xB0, 0x01, 0x00, 0xA9, 0x07, 0x00]);
    assert_eq!(cpu.reg_a, 7);
    // BMI / BPL
    let cpu = run(&[0xA9, 0x80, 0x30, 0x01, 0x00, 0xA9, 0x01, 0x10, 0x01, 0x00, 0xA2, 0x09, 0x00]);
    assert_eq!(cpu.reg_x, 9);
    // BVS / BVC
    let cpu = run(&[0xA9, 0x50, 0x69, 0x50, 0x70, 0x01, 0x00, 0xB8, 0x50, 0x01, 0x00, 0xA2, 0x0A, 0x00]);
    assert_eq!(cpu.reg_x, 10);
}

#[test]
fn cpu_jmp_absolute_and_indirect() {
    // JMP $8005
    let cpu = run(&[0x4C, 0x05, 0x80, 0xA9, 0x01, 0xA2, 0x02, 0x00]);
    assert_eq!(cpu.reg_a, 0);
    assert_eq!(cpu.reg_x, 2);
    // LDA #$0E; STA $0200; LDA #$80; STA $0201; JMP ($0200)
    let cpu = run(&[
        0xA9, 0x0E, 0x8D, 0x00, 0x02, 0xA9, 0x80, 0x8D, 0x01, 0x02, 0x6C, 0x00, 0x02, 0x00, 0xA2,
        0x03, 0x00,
    ]);
    assert_eq!(cpu.reg_x, 3);
}

#[test]
fn cpu_jmp_indirect_wraps_within_the_page() {
    // target low byte at $02FF, high byte taken from $0200 (not $0300)
    let mut cpu = machine(&[0x6C, 0xFF, 0x02, 0x00]);
    cpu.bus.mem_write(0x02FF, 0x34);
    cpu.bus.mem_write(0x0200, 0x12);
    cpu.bus.mem_write(0x0300, 0x56);
    assert_eq!(cpu.step(), StepOutcome::Continue);
    assert_eq!(cpu.program_counter, 0x1234);
}

#[test]
fn cpu_jsr_and_rts() {
    // JSR $8006; LDA #$01; BRK; sub: LDX #$05; RTS
    let mut cpu = machine(&[0x20, 0x06, 0x80, 0xA9, 0x01, 0x00, 0xA2, 0x05, 0x60]);
    assert_eq!(cpu.step(), StepOutcome::Continue);
    assert_eq!(cpu.program_counter, 0x8006);
    assert_eq!(cpu.stack_pointer, 0xFB);
    assert_eq!(cpu.bus.cpu_vram[0x1FD], 0x80);
    assert_eq!(cpu.bus.cpu_vram[0x1FC], 0x02);
    assert_eq!(cpu.step(), StepOutcome::Continue);
    assert_eq!(cpu.step(), StepOutcome::Continue);
    assert_eq!(cpu.program_counter, 0x8003);
    assert_eq!(cpu.stack_pointer, 0xFD);
    assert_eq!(cpu.run(10).outcome, StepOutcome::Break);
    assert_eq!((cpu.reg_a, cpu.reg_x), (1, 5));
}

#[test]
fn cpu_stack_instructions() {
    // LDA #$42; PHA; LDA #$00; PLA
    let cpu = run(&[0xA9, 0x42, 0x48, 0xA9, 0x00, 0x68, 0x00]);
    assert_eq!(cpu.reg_a, 0x42);
    assert_eq!(cpu.stack_pointer, 0xFD);
    assert_eq!(cpu.bus.cpu_vram[0x1FD], 0x42);
    assert!(!flag(&cpu, ZERO));
    // LDX #$10; TXS; TSX
    let cpu = run(&[0xA2, 0x10, 0x9A, 0xA2, 0x00, 0xBA, 0x00]);
    assert_eq!(cpu.stack_pointer, 0x10);
    assert_eq!(cpu.reg_x, 0x10);
}

#[test]
fn cpu_php_and_plp() {
    // SEC; SED; PHP; CLC; CLD; PLP
    let mut cpu = machine(&[0x38, 0xF8, 0x08, 0x18, 0xD8, 0x28, 0x00]);
    cpu.run(3);
    assert_eq!(cpu.bus.cpu_vram[0x1FD], 0b0011_1101);
    assert_eq!(cpu.status.bits(), 0b0010_1101);
    cpu.run(2);
    assert_eq!(cpu.status.bits(), 0b0010_0100);
    cpu.run(1);
    assert_eq!(cpu.status.bits(), 0b0010_1101);
    assert!(!flag(&cpu, BREAK));
    assert!(flag(&cpu, BREAK2));
    assert_eq!(cpu.stack_pointer, 0xFD);
}

#[test]
fn cpu_plp_clears_break_and_sets_break2() {
    // LDA #$DF; PHA; PLP
    let cpu = run(&[0xA9, 0xDF, 0x48, 0x28, 0x00]);
    assert_eq!(cpu.status.bits(), 0b1110_1111);
    let cpu = run(&[0xA9, 0x00, 0x48, 0x28, 0x00]);
    assert_eq!(cpu.status.bits(), 0b0010_0000);
}

#[test]
fn cpu_rti() {
    // push $80, $0C, then status $D3; RTI lands on $800C, past the LDX
    let cpu = run(&[
        0xA9, 0x80, 0x48, 0xA9, 0x0C, 0x48, 0xA9, 0xD3, 0x48, 0x40, 0xA2, 0x07, 0x00,
    ]);
    assert_eq!(cpu.reg_x, 0);
    assert_eq!(cpu.program_counter, 0x800D);
    assert_eq!(cpu.status.bits(), 0b1110_0011);
    assert_eq!(cpu.stack_pointer, 0xFD);
}

#[test]
fn cpu_transfers() {
    let cpu = run(&[0xA9, 0x80, 0xAA, 0xA8, 0xA9, 0x00, 0x8A, 0x00]);
    assert_eq!((cpu.reg_a, cpu.reg_x, cpu.reg_y), (0x80, 0x80, 0x80));
    assert!(flag(&cpu, NEGATIV));
    let cpu = run(&[0xA0, 0x00, 0xA9, 0x01, 0x98, 0x00]);
    assert_eq!(cpu.reg_a, 0);
    assert!(flag(&cpu, ZERO));
}

#[test]
fn cpu_stores() {
    let cpu = run(&[0xA9, 0x11, 0xA2, 0x22, 0xA0, 0x33, 0x85, 0x10, 0x86, 0x11, 0x84, 0x12, 0x00]);
    assert_eq!(cpu.bus.cpu_vram[0x10..0x13], [0x11, 0x22, 0x33]);
    // STX $10,Y and STY $10,X
    let cpu = run(&[0xA2, 0x02, 0xA0, 0x03, 0x96, 0x10, 0x94, 0x10, 0x00]);
    assert_eq!(cpu.bus.cpu_vram[0x13], 0x02);
    assert_eq!(cpu.bus.cpu_vram[0x12], 0x03);
}

#[test]
fn cpu_addressing_modes() {
    let mut cpu = machine(&[]);
    cpu.reg_x = 0x04;
    cpu.reg_y = 0x10;
    cpu.bus.mem_write(0x0010, 0xF0);
    cpu.bus.mem_write(0x0011, 0x34);
    cpu.bus.mem_write(0x0012, 0x02);
    cpu.bus.mem_write(0x00F4, 0x78);
    cpu.bus.mem_write(0x00F5, 0x06);
    cpu.bus.mem_write(0x00F0, 0xFF);
    cpu.bus.mem_write(0x00F1, 0x00);
    cpu.bus.mem_write(0x00FF, 0xAA);
    cpu.bus.mem_write(0x0000, 0x05);
    assert_eq!(cpu.get_absolute_address(AddressingMode::ZeroPage, 0x0010), 0x00F0);
    assert_eq!(cpu.get_absolute_address(AddressingMode::ZeroPage_X, 0x0010), 0x00F4);
    assert_eq!(cpu.get_absolute_address(AddressingMode::ZeroPage_Y, 0x0010), 0x0000);
    assert_eq!(cpu.get_absolute_address(AddressingMode::Absolute, 0x0011), 0x0234);
    assert_eq!(cpu.get_absolute_address(AddressingMode::Absolute_X, 0x0011), 0x0238);
    assert_eq!(cpu.get_absolute_address(AddressingMode::Absolute_Y, 0x0011), 0x0244);
    assert_eq!(cpu.get_absolute_address(AddressingMode::Indirect_X, 0x0010), 0x0678);
    assert_eq!(cpu.get_absolute_address(AddressingMode::Indirect_Y, 0x0010), 0x010F);
    // the pointer of the indirect modes wraps within the zero page
    cpu.reg_x = 0x0F;
    assert_eq!(cpu.get_absolute_address(AddressingMode::Indirect_X, 0x0010), 0x05AA);
    cpu.bus.mem_write(0x0013, 0xFF);
    assert_eq!(cpu.get_absolute_address(AddressingMode::Indirect_Y, 0x0013), 0x05BA);
    // absolute indexing wraps within the address space
    cpu.bus.mem_write(0x0020, 0xFF);
    cpu.bus.mem_write(0x0021, 0xFF);
    assert_eq!(cpu.get_absolute_address(AddressingMode::Absolute_Y, 0x0020), 0x000F);
    assert_eq!(cpu.fault, None);
}

#[test]
fn cpu_loads_through_every_mode() {
    // data
    let setup = [
        0xA9, 0x55, 0x85, 0x10, // $10 = 55
        0xA9, 0x66, 0x8D, 0x00, 0x03, // $0300 = 66
        0xA9, 0x00, 0x85, 0x20, 0xA9, 0x03, 0x85, 0x21, // ($20) = $0300
        0xA2, 0x02, 0xA0, 0x01,
    ];
    let with = |tail: &[u8]| {
        let mut program = setup.to_vec();
        program.extend_from_slice(tail);
        program.push(0x00);
        run(&program)
    };
    assert_eq!(with(&[0xA5, 0x10]).reg_a, 0x55);
    assert_eq!(with(&[0xB5, 0x0E]).reg_a, 0x55);
    assert_eq!(with(&[0xB6, 0x0F]).reg_x, 0x55);
    assert_eq!(with(&[0xAD, 0x00, 0x03]).reg_a, 0x66);
    assert_eq!(with(&[0xBD, 0xFE, 0x02]).reg_a, 0x66);
    assert_eq!(with(&[0xB9, 0xFF, 0x02]).reg_a, 0x66);
    assert_eq!(with(&[0xA1, 0x1E]).reg_a, 0x66);
    assert_eq!(with(&[0xA0, 0x00, 0xB1, 0x20]).reg_a, 0x66);
    assert_eq!(with(&[0xA4, 0x10]).reg_y, 0x55);
    assert_eq!(with(&[0xBC, 0xFE, 0x02]).reg_y, 0x66);
    assert_eq!(with(&[0xBE, 0xFF, 0x02]).reg_x, 0x66);
}

#[test]
fn cpu_undocumented_loads_and_stores() {
    // LAX $10
    let cpu = run(&[0xA9, 0x8F, 0x85, 0x10, 0xA9, 0x00, 0xA7, 0x10, 0x00]);
    assert_eq!((cpu.reg_a, cpu.reg_x), (0x8F, 0x8F));
    assert!(flag(&cpu, NEGATIV));
    // SAX $10
    let cpu = run(&[0xA9, 0b1100, 0xA2, 0b1010, 0x87, 0x10, 0x00]);
    assert_eq!(cpu.bus.cpu_vram[0x10], 0b1000);
    // LXA #$3C
    let cpu = run(&[0xAB, 0x3C, 0x00]);
    assert_eq!((cpu.reg_a, cpu.reg_x), (0x3C, 0x3C));
    // XAA #$0F with X = $3C
    let cpu = run(&[0xA2, 0x3C, 0x8B, 0x0F, 0x00]);
    assert_eq!(cpu.reg_a, 0x0C);
    // LAS $0300,Y
    let cpu = run(&[0xA9, 0xF0, 0x8D, 0x00, 0x03, 0xBB, 0x00, 0x03, 0x00]);
    assert_eq!((cpu.reg_a, cpu.reg_x, cpu.stack_pointer), (0xF0, 0xF0, 0xF0));
}

#[test]
fn cpu_undocumented_arithmetic() {
    // ALR #$03 with A = $FF: (FF & 03) >> 1 = 1, carry
    let cpu = run(&[0xA9, 0xFF, 0x4B, 0x03, 0x00]);
    assert_eq!(cpu.reg_a, 0x01);
    assert!(flag(&cpu, CARRY));
    // ANC #$80 with A = $FF: carry copies the negative flag of the result
    let cpu = run(&[0xA9, 0xFF, 0x0B, 0x80, 0x00]);
    assert_eq!(cpu.reg_a, 0x80);
    assert!(flag(&cpu, CARRY) && flag(&cpu, NEGATIV));
    let cpu = run(&[0xA9, 0x7F, 0x2B, 0x01, 0x00]);
    assert_eq!(cpu.reg_a, 0x01);
    assert!(!flag(&cpu, CARRY));
    let cpu = run(&[0x38, 0xA9, 0xFF, 0x2B, 0x01, 0x00]);
    assert_eq!(cpu.reg_a, 0x01);
    assert!(!flag(&cpu, CARRY) && !flag(&cpu, NEGATIV));
    // ARR #$FF with A = $C0, carry set: (C0 >> 1) | 80 = E0
    let cpu = run(&[0x38, 0xA9, 0xC0, 0x6B, 0xFF, 0x00]);
    assert_eq!(cpu.reg_a, 0xE0);
    assert!(flag(&cpu, CARRY));
    assert!(!flag(&cpu, OVERFLOW));
    let cpu = run(&[0x18, 0xA9, 0x80, 0x6B, 0xFF, 0x00]);
    assert_eq!(cpu.reg_a, 0x40);
    assert!(flag(&cpu, CARRY));
    assert!(flag(&cpu, OVERFLOW));
    // AXS #$02 with A = $0F, X = $07: X = 7 - 2
    let cpu = run(&[0xA9, 0x0F, 0xA2, 0x07, 0xCB, 0x02, 0x00]);
    assert_eq!(cpu.reg_x, 0x05);
    assert!(flag(&cpu, CARRY));
    let cpu = run(&[0x38, 0xA9, 0x0F, 0xA2, 0x07, 0xCB, 0x08, 0x00]);
    assert_eq!(cpu.reg_x, 0xFF);
    assert!(!flag(&cpu, CARRY));
    assert!(flag(&cpu, NEGATIV));
}

#[test]
fn cpu_undocumented_read_modify_write() {
    // SLO $10: $10 = 81 << 1 = 02, A = 10 | 02
    let cpu = run(&[0xA9, 0x81, 0x85, 0x10, 0xA9, 0x10, 0x07, 0x10, 0x00]);
    assert_eq!(cpu.bus.cpu_vram[0x10], 0x02);
    assert_eq!(cpu.reg_a, 0x12);
    assert!(flag(&cpu, CARRY));
    // RLA $10 with carry: $10 = 03, A = FF & 03
    let cpu = run(&[0xA9, 0x81, 0x85, 0x10, 0xA9, 0xFF, 0x38, 0x27, 0x10, 0x00]);
    assert_eq!(cpu.bus.cpu_vram[0x10], 0x03);
    assert_eq!(cpu.reg_a, 0x03);
    // SRE $10: $10 = 40, A = FF ^ 40
    let cpu = run(&[0xA9, 0x81, 0x85, 0x10, 0xA9, 0xFF, 0x47, 0x10, 0x00]);
    assert_eq!(cpu.bus.cpu_vram[0x10], 0x40);
    assert_eq!(cpu.reg_a, 0xBF);
    // RRA $10 without carry: $10 = 40, carry out 1, A = 01 + 40 + 1
    let cpu = run(&[0xA9, 0x81, 0x85, 0x10, 0xA9, 0x01, 0x18, 0x67, 0x10, 0x00]);
    assert_eq!(cpu.bus.cpu_vram[0x10], 0x40);
    assert_eq!(cpu.reg_a, 0x42);
    assert!(!flag(&cpu, CARRY));
    // DCP $10: $10 = 0F, compared with A = 0F
    let cpu = run(&[0xA9, 0x10, 0x85, 0x10, 0xA9, 0x0F, 0xC7, 0x10, 0x00]);
    assert_eq!(cpu.bus.cpu_vram[0x10], 0x0F);
    assert!(flag(&cpu, CARRY) && flag(&cpu, ZERO));
    // DCP $10: $10 = 10, compared with A = 0F, clears the carry
    let cpu = run(&[0xA9, 0x11, 0x85, 0x10, 0xA9, 0x0F, 0x38, 0xC7, 0x10, 0x00]);
    assert_eq!(cpu.bus.cpu_vram[0x10], 0x10);
    assert!(!flag(&cpu, CARRY) && !flag(&cpu, ZERO) && flag(&cpu, NEGATIV));
    // ISB $10: $10 = 02, A = 05 - 02 with carry set
    let cpu = run(&[0xA9, 0x01, 0x85, 0x10, 0xA9, 0x05, 0x38, 0xE7, 0x10, 0x00]);
    assert_eq!(cpu.bus.cpu_vram[0x10], 0x02);
    assert_eq!(cpu.reg_a, 0x03);
    assert!(flag(&cpu, CARRY));
}

#[test]
fn cpu_undocumented_stores() {
    // SHX $0200,Y: X & (high byte of target + 1)
    let cpu = run(&[0xA2, 0xFF, 0xA0, 0x01, 0x9E, 0x00, 0x02, 0x00]);
    assert_eq!(cpu.bus.cpu_vram[0x201], 0x03);
    // SHY $0200,X
    let cpu = run(&[0xA0, 0xFF, 0xA2, 0x02, 0x9C, 0x00, 0x02, 0x00]);
    assert_eq!(cpu.bus.cpu_vram[0x202], 0x03);
    // AHX $0200,Y: A & X & high byte of target
    let cpu = run(&[0xA9, 0xFF, 0xA2, 0x0F, 0xA0, 0x03, 0x9F, 0x00, 0x06, 0x00]);
    assert_eq!(cpu.bus.cpu_vram[0x603], 0x06);
    // AHX ($10),Y
    let cpu = run(&[
        0xA9, 0x00, 0x85, 0x10, 0xA9, 0x07, 0x85, 0x11, 0xA9, 0xFF, 0xA2, 0x0F, 0xA0, 0x03, 0x93,
        0x10, 0x00,
    ]);
    assert_eq!(cpu.bus.cpu_vram[0x703], 0x07);
    // TAS $0200,Y: the stack pointer becomes A & X
    let cpu = run(&[0xA9, 0xF7, 0xA2, 0x3F, 0xA0, 0x04, 0x9B, 0x00, 0x02, 0x00]);
    assert_eq!(cpu.stack_pointer, 0x37);
    assert_eq!(cpu.bus.cpu_vram[0x204], 0x03);
}

#[test]
fn cpu_nops_skip_their_operands() {
    let cpu = run(&[0xEA, 0x1A, 0x80, 0xFF, 0x04, 0xFF, 0x0C, 0xFF, 0x00, 0x1C, 0x00, 0x02, 0xA9, 0x01, 0x00]);
    assert_eq!(cpu.reg_a, 1);
    assert_eq!(cpu.program_counter, 0x800F);
    assert_eq!(cpu.status.bits(), 0b0010_0100);
}

#[test]
fn cpu_nop_with_an_operand_reads_it() {
    // NOP $2002 reads Status, which drops the vertical-blank flag
    let mut cpu = machine(&[0x0C, 0x02, 0x20, 0x00]);
    cpu.bus.ppu.status.set_vblank_status(true);
    assert_eq!(cpu.step(), StepOutcome::Continue);
    assert!(!cpu.bus.ppu.status.is_in_vblank());
}

#[test]
fn cpu_stops_on_a_byte_without_an_instruction() {
    let mut cpu = machine(&[0xA9, 0x01, 0x02, 0xA9, 0x02, 0x00]);
    let report = cpu.run(10);
    assert_eq!(report, RunReport { steps: 2, outcome: StepOutcome::Fault(Fault::UnknownOpcode(0x02)) });
    assert_eq!(cpu.fault, Some(Fault::UnknownOpcode(0x02)));
    assert_eq!(cpu.reg_a, 1);
    assert_eq!(cpu.step(), StepOutcome::Fault(Fault::UnknownOpcode(0x02)));
    assert_eq!(cpu.reg_a, 1);
    assert_eq!(cpu.bus.cycles, 2);
}

#[test]
fn cpu_stops_on_a_read_of_a_write_only_register() {
    let mut cpu = machine(&[0xAD, 0x00, 0x20, 0xA2, 0x01, 0x00]);
    assert_eq!(cpu.step(), StepOutcome::Fault(Fault::IllegalRead(0x2000)));
    assert_eq!(cpu.fault, Some(Fault::IllegalRead(0x2000)));
    assert_eq!(cpu.run(10), RunReport { steps: 1, outcome: StepOutcome::Fault(Fault::IllegalRead(0x2000)) });
    assert_eq!(cpu.reg_x, 0);
    assert_eq!(cpu.bus.cycles, 0);
}

#[test]
fn cpu_stops_on_a_write_to_rom_or_to_status() {
    let mut cpu = machine(&[0xA9, 0x01, 0x8D, 0x00, 0x80, 0x00]);
    assert_eq!(cpu.run(10).outcome, StepOutcome::Fault(Fault::IllegalWrite(0x8000)));
    assert_eq!(cpu.bus.mem_read(0x8000), 0xA9);
    let mut cpu = machine(&[0x8D, 0x02, 0x20, 0x00]);
    assert_eq!(cpu.run(10).outcome, StepOutcome::Fault(Fault::IllegalWrite(0x2002)));
}

#[test]
fn cpu_leaves_the_bus_alone_after_a_defect() {
    // INC $2000 reads a write-only register: the write back does not happen
    let mut cpu = machine(&[0xEE, 0x00, 0x20, 0x00]);
    assert_eq!(cpu.step(), StepOutcome::Fault(Fault::IllegalRead(0x2000)));
    assert_eq!(cpu.bus.ppu.ctrl.bits, 0);
    assert_eq!(cpu.mem_read(0x0000), 0);
    cpu.mem_write(0x0000, 0x55);
    assert_eq!(cpu.bus.cpu_vram[0], 0);
    cpu.reset();
    assert_eq!(cpu.program_counter, 0);
    assert_eq!(cpu.fault, Some(Fault::IllegalRead(0x2000)));
}

#[test]
fn cpu_mem_access_goes_through_the_bus() {
    let mut cpu = machine(&[]);
    cpu.mem_write(0x0123, 0x45);
    assert_eq!(cpu.mem_read(0x0923), 0x45);
    cpu.mem_write_u16(0x0200, 0xBEEF);
    assert_eq!(cpu.mem_read_u16(0x0200), 0xBEEF);
    assert_eq!(cpu.mem_read_u16(0xFFFC), 0x8000);
    assert_eq!(cpu.fault, None);
    assert_eq!(cpu.mem_read(0x2000), 0);
    assert_eq!(cpu.fault, Some(Fault::IllegalRead(0x2000)));
}

#[test]
fn cpu_load_puts_the_program_in_ram_and_points_the_reset_vector_at_it() {
    let mut cpu = machine(&[]);
    assert!(cpu.has_reset_vector());
    cpu.load(vec![0xA9, 0xC0, 0xAA, 0xE8, 0x00]);
    assert_eq!(cpu.bus.cpu_vram[0x600..0x605], [0xA9, 0xC0, 0xAA, 0xE8, 0x00]);
    assert_eq!(cpu.fault, None);
    assert_eq!(cpu.mem_read_u16(0xFFFC), 0x0600);
    assert_eq!(cpu.bus.prg_rom[0x7FFC..0x7FFE], [0x00, 0x06]);
    assert_eq!(cpu.program_counter, 0x8000);
    cpu.reset();
    assert_eq!(cpu.program_counter, 0x0600);
}

#[test]
fn cpu_load_and_run_runs_the_program() {
    let mut cpu = machine(&[]);
    let report = cpu.load_and_run(vec![0xA9, 0xC0, 0xAA, 0xE8, 0x00], 100);
    assert_eq!(report, RunReport { steps: 4, outcome: StepOutcome::Break });
    assert_eq!(cpu.reg_x, 0xC1);
    assert_eq!(cpu.reg_a, 0xC0);
    assert!(flag(&cpu, NEGATIV));
    assert!(!flag(&cpu, ZERO));
    assert_eq!(cpu.fault, None);
    assert_eq!(cpu.program_counter, 0x0605);
    assert_eq!(cpu.bus.cycles, 6);
}

#[test]
fn cpu_load_and_run_on_a_fresh_machine() {
    let rom = Rom {
        prg_rom: vec![0xEAu8; 0x4000],
        chr_rom: vec![0u8; 0x2000],
        mapper: 0,
        screen_mirroring: Mirroring::VERTICAL,
        is_chr_ram: false,
    };
    let mut cpu = CPU::new(Bus::new(rom));
    assert!(cpu.has_reset_vector());
    let report = cpu.load_and_run(vec![0xA9, 0xC0, 0xAA, 0xE8, 0x00], 4);
    assert_eq!(report, RunReport { steps: 4, outcome: StepOutcome::Break });
    assert_eq!(cpu.reg_x, 0xC1);
    // a single bank shows twice, and so does the vector in it
    assert_eq!(cpu.bus.prg_rom[0x3FFC..0x3FFE], [0x00, 0x06]);
    assert_eq!(cpu.bus.mem_read_u16(0xBFFC), 0x0600);
}

#[test]
fn cpu_load_stops_writing_at_a_register_that_cannot_be_written() {
    // the byte at index 0x1A02 would go to the Status register
    let mut cpu = machine(&[]);
    cpu.load(vec![0u8; 0x1A03]);
    assert_eq!(cpu.fault, Some(Fault::IllegalWrite(0x2002)));
    assert_eq!(cpu.mem_read_u16(0xFFFC), 0);
    assert_eq!(cpu.bus.prg_rom[0x7FFC..0x7FFE], [0x00, 0x80]);
    let mut cpu = machine(&[]);
    cpu.load(vec![0u8; 0x1A02]);
    assert_eq!(cpu.fault, None);
    assert_eq!(cpu.bus.prg_rom[0x7FFC..0x7FFE], [0x00, 0x06]);
}

#[test]
fn cpu_has_reset_vector_tells_a_cartridge_without_one() {
    let rom = Rom {
        prg_rom: vec![0u8; 0x7FFD],
        chr_rom: vec![0u8; 0x2000],
        mapper: 0,
        screen_mirroring: Mirroring::VERTICAL,
        is_chr_ram: false,
    };
    let cpu = CPU::new(Bus::new(rom));
    assert!(cpu.bus.rom_covers(0xFFFC));
    assert!(!cpu.bus.rom_covers(0xFFFD));
    assert!(!cpu.bus.rom_covers(0x7FFF));
    assert!(!cpu.has_reset_vector());
}

#[test]
fn cpu_stands_still_after_a_byte_without_an_instruction() {
    let mut cpu = machine(&[0xE8, 0x02, 0xE8, 0xE8, 0x00]);
    assert_eq!(cpu.run(100), RunReport { steps: 2, outcome: StepOutcome::Fault(Fault::UnknownOpcode(0x02)) });
    let (x, pc, cycles) = (cpu.reg_x, cpu.program_counter, cpu.bus.cycles);
    assert_eq!((x, pc, cycles), (1, 0x8002, 2));
    for _ in 0..3 {
        assert_eq!(cpu.run(100), RunReport { steps: 1, outcome: StepOutcome::Fault(Fault::UnknownOpcode(0x02)) });
        assert_eq!((cpu.reg_x, cpu.program_counter, cpu.bus.cycles), (x, pc, cycles));
    }
}

#[test]
fn cpu_reports_one_frame_per_frame() {
    // LDA #$80; STA $2000; then NOPs: the interrupt is enabled, and every
    // NOP costs two cycles
    let mut program = vec![0xEA; 0x7000];
    program[..5].copy_from_slice(&[0xA9, 0x80, 0x8D, 0x00, 0x20]);
    let mut cpu = machine(&program);
    let mut frames = 0;
    let mut steps = 0;
    while cpu.bus.cycles < 262 * 341 / 3 + 1 {
        match cpu.step() {
            StepOutcome::Continue => {}
            StepOutcome::FrameReady => {
                frames += 1;
                assert_eq!(cpu.bus.ppu.scanline, 241);
                assert!(cpu.bus.ppu.cycles < 6);
            }
            other => panic!("{:?}", other),
        }
        steps += 1;
    }
    assert_eq!(frames, 1);
    assert_eq!(steps, 2 + (29781 - 6 + 1) / 2);
}

#[test]
fn cpu_run_stops_when_a_frame_is_ready() {
    // LDA #$80; STA $2000; loop: JMP loop
    let mut cpu = machine(&[0xA9, 0x80, 0x8D, 0x00, 0x20, 0x4C, 0x05, 0x80]);
    let report = cpu.run(1_000_000);
    assert_eq!(report.outcome, StepOutcome::FrameReady);
    // 6 cycles, then jumps of 3 cycles until dot 241 * 341 is passed
    assert_eq!(report.steps, 2 + (241 * 341 / 3 + 1 - 6 + 2) / 3);
    assert_eq!(cpu.bus.ppu.scanline, 241);
    let again = cpu.run(1_000_000);
    assert_eq!(again.outcome, StepOutcome::FrameReady);
    assert_eq!(again.steps as usize * 3, 262 * 341 / 3 + 1);
}

#[test]
fn opcode_table_entries() {
    assert_eq!(
        lookup(0xA9),
        Some(OpCode { code: 0xA9, mnemonic: Mnemonic::LDA, len: 2, cycles: 2, mode: AddressingMode::Immediate })
    );
    assert_eq!(
        lookup(0x00),
        Some(OpCode { code: 0x00, mnemonic: Mnemonic::BRK, len: 1, cycles: 7, mode: AddressingMode::NoneAddressing })
    );
    assert_eq!(
        lookup(0x6C),
        Some(OpCode { code: 0x6C, mnemonic: Mnemonic::JMP, len: 3, cycles: 5, mode: AddressingMode::Indirect })
    );
    assert_eq!(
        lookup(0x91),
        Some(OpCode { code: 0x91, mnemonic: Mnemonic::STA, len: 2, cycles: 6, mode: AddressingMode::Indirect_Y })
    );
    assert_eq!(
        lookup(0xBE),
        Some(OpCode { code: 0xBE, mnemonic: Mnemonic::LDX, len: 3, cycles: 4, mode: AddressingMode::Absolute_Y })
    );
    assert_eq!(
        lookup(0xE3),
        Some(OpCode { code: 0xE3, mnemonic: Mnemonic::ISB, len: 2, cycles: 8, mode: AddressingMode::Indirect_X })
    );
    assert_eq!(
        lookup(0xEB),
        Some(OpCode { code: 0xEB, mnemonic: Mnemonic::SBC, len: 2, cycles: 2, mode: AddressingMode::Immediate })
    );
    assert_eq!(OpCode::new(1, Mnemonic::NOP, 2, 3, AddressingMode::ZeroPage).len, 2);
}

#[test]
fn opcode_table_covers_all_but_twelve_bytes() {
    let missing: Vec<u8> = (0..=255u8).filter(|code| lookup(*code).is_none()).collect();
    assert_eq!(missing, vec![0x02, 0x12, 0x22, 0x32, 0x42, 0x52, 0x62, 0x72, 0x92, 0xB2, 0xD2, 0xF2]);
    for code in 0..=255u8 {
        if let Some(opcode) = lookup(code) {
            assert_eq!(opcode.code, code);
            assert!((1..=3).contains(&opcode.len));
            assert!((2..=8).contains(&opcode.cycles));
            let operand_bytes = match opcode.mode {
                AddressingMode::Immediate
                | AddressingMode::ZeroPage
                | AddressingMode::ZeroPage_X
                | AddressingMode::ZeroPage_Y
                | AddressingMode::Indirect_X
                | AddressingMode::Indirect_Y => Some(1),
                AddressingMode::Absolute
                | AddressingMode::Absolute_X
                | AddressingMode::Absolute_Y
                | AddressingMode::Indirect => Some(2),
                AddressingMode::NoneAddressing => None,
            };
            if let Some(bytes) = operand_bytes {
                assert_eq!(opcode.len, 1 + bytes, "{:02x}", code);
            }
        }
    }
}

#[test]
fn cpu_flags_set_and_clear() {
    let mut flags = CpuFlags::from_bits_truncate(0);
    flags.insert(CARRY);
    flags.insert(OVERFLOW);
    assert_eq!(flags.bits(), 0b0100_0001);
    assert!(flags.contains(CARRY));
    assert!(!flags.contains(ZERO));
    flags.remove(CARRY);
    flags.set(NEGATIV, true);
    flags.set(OVERFLOW, false);
    assert_eq!(flags.bits(), 0b1000_0000);
    assert_eq!(flags.with(ZERO, true).bits(), 0b1000_0010);
    assert_eq!(flags.with_zero_n_negative(0).bits(), 0b0000_0010);
    assert_eq!(flags.with_zero_n_negative(0x80).bits(), 0b1000_0000);
    assert_eq!(flags.with_zero_n_negative(0x01).bits(), 0b0000_0000);
    assert_eq!(CpuFlags::from_bits_truncate(0b1100_0011).pushed(), 0b1111_0011);
    assert_eq!(CpuFlags::pulled(0b1101_0011).bits(), 0b1110_0011);
    assert_eq!(BREAK | BREAK2 | DECIMAL_MODE | INTERRUPT_DISABLE, 0b0011_1100);
}

#[test]
fn cpu_well_formed_tells_counters_and_fields_out_of_range() {
    let mut cpu = machine(&[]);
    assert!(cpu.well_formed());
    cpu.bus.ppu.scanline = 262;
    assert!(!cpu.well_formed());
    cpu.bus.ppu.scanline = 261;
    cpu.bus.ppu.cycles = 341;
    assert!(!cpu.well_formed());
    cpu.bus.ppu.cycles = 340;
    assert!(cpu.well_formed());
    cpu.bus.ppu.addr.hi = 0x40;
    assert!(!cpu.bus.ppu.well_formed());
    assert!(!cpu.bus.well_formed());
    cpu.bus.ppu.addr.hi = 0x3F;
    cpu.bus.apu.square2.timer = 0x800;
    assert!(!cpu.well_formed());
    cpu.bus.apu.square2.timer = 0x7FF;
    cpu.bus.apu.noise.period = 16;
    assert!(!cpu.bus.apu.well_formed());
    cpu.bus.apu.noise.period = 15;
    cpu.bus.apu.triangle.counter_reload_value = 128;
    assert!(!cpu.well_formed());
    cpu.bus.apu.triangle.counter_reload_value = 127;
    assert!(cpu.well_formed());
}
