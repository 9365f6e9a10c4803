//! What holds of the instructions whatever the state they run in.

use vstd::prelude::*;
use crate::bitfield::{
    lemma_put_keeps_flag,
    lemma_put_then_contains,
    is_single_bit,
};
use crate::bus::{lemma_ram_write, lemma_read_keeps_memory, BusState, RAM_MIRRORS_END, RAM_SIZE};
use crate::cpu::alu::{
    spec_add_with_carry,
    spec_bit_test,
    spec_compare,
    spec_subtract_with_carry,
};
use crate::cpu::flags::{CpuFlags, BREAK, BREAK2, CARRY, NEGATIV, OVERFLOW, ZERO};
use crate::cpu::state::CpuState;
use crate::cpu::AddressingMode;
use crate::mem::{lemma_word_of_bytes, spec_high_byte, spec_low_byte};

verus! {

/// Zero tells whether `result` is 0, and Negative is bit 7 of `result`.
pub open spec fn flags_follow(status: CpuFlags, result: u8) -> bool {
    &&& status.spec_contains(ZERO) == (result == 0)
    &&& status.spec_contains(NEGATIV) == (result & 0b1000_0000 != 0)
}

/// The update of Zero and Negative makes them follow the result and leaves
/// the other flags alone.
pub proof fn lemma_zero_n_negative(status: CpuFlags, result: u8, other: u8)
    requires
        is_single_bit(other),
        other != ZERO,
        other != NEGATIV,
    ensures
        flags_follow(status.spec_with_zero_n_negative(result), result),
        status.spec_with_zero_n_negative(result).spec_contains(other) == status.spec_contains(
            other,
        ),
{
    let zero = status.spec_with(ZERO, result == 0);
    lemma_put_then_contains(status.bits, ZERO, result == 0);
    lemma_put_keeps_flag(status.bits, ZERO, result == 0, other);
    lemma_put_then_contains(zero.bits, NEGATIV, result & 0b1000_0000 != 0);
    lemma_put_keeps_flag(zero.bits, NEGATIV, result & 0b1000_0000 != 0, ZERO);
    lemma_put_keeps_flag(zero.bits, NEGATIV, result & 0b1000_0000 != 0, other);
}

/// After any update of Zero and Negative, both follow the result.
pub proof fn lemma_flags_follow()
    ensures
        forall|status: CpuFlags, result: u8|
            flags_follow(#[trigger] status.spec_with_zero_n_negative(result), result),
{
    assert forall|status: CpuFlags, result: u8|
        flags_follow(#[trigger] status.spec_with_zero_n_negative(result), result) by {
        lemma_zero_n_negative(status, result, CARRY);
    }
}

/// Loads, pulls and transfers: Zero and Negative follow the value that
/// arrived in the register.
pub proof fn law_loads_set_zero_negative(s: CpuState, mode: AddressingMode)
    ensures
        flags_follow(s.lda(mode).status, s.lda(mode).reg_a),
        flags_follow(s.ldx(mode).status, s.ldx(mode).reg_x),
        flags_follow(s.ldy(mode).status, s.ldy(mode).reg_y),
        flags_follow(s.lax(mode).status, s.lax(mode).reg_a),
        s.lax(mode).reg_x == s.lax(mode).reg_a,
        flags_follow(s.lxa(mode).status, s.lxa(mode).reg_a),
        s.lxa(mode).reg_x == s.lxa(mode).reg_a,
        flags_follow(s.las(mode).status, s.las(mode).reg_a),
        flags_follow(s.pla().status, s.pla().reg_a),
        flags_follow(s.tax().status, s.tax().reg_x),
        flags_follow(s.tay().status, s.tay().reg_y),
        flags_follow(s.tsx().status, s.tsx().reg_x),
        flags_follow(s.txa().status, s.txa().reg_a),
        flags_follow(s.tya().status, s.tya().reg_a),
{
    lemma_flags_follow();
    reveal(CpuState::lda);
    reveal(CpuState::ldx);
    reveal(CpuState::ldy);
    reveal(CpuState::lax);
    reveal(CpuState::lxa);
    reveal(CpuState::las);
    reveal(CpuState::pla);
}

/// Arithmetic and logic on the accumulator: Zero and Negative follow the
/// accumulator.
pub proof fn law_arithmetic_sets_zero_negative(s: CpuState, mode: AddressingMode)
    ensures
        flags_follow(s.adc(mode).status, s.adc(mode).reg_a),
        flags_follow(s.sbc(mode).status, s.sbc(mode).reg_a),
        flags_follow(s.and(mode).status, s.and(mode).reg_a),
        flags_follow(s.ora(mode).status, s.ora(mode).reg_a),
        flags_follow(s.eor(mode).status, s.eor(mode).reg_a),
        flags_follow(s.alr(mode).status, s.alr(mode).reg_a),
        flags_follow(s.arr(mode).status, s.arr(mode).reg_a),
        flags_follow(s.xaa(mode).status, s.xaa(mode).reg_a),
        flags_follow(s.axs(mode).status, s.axs(mode).reg_x),
{
    lemma_flags_follow();
    reveal(CpuState::adc);
    reveal(CpuState::sbc);
    reveal(CpuState::and);
    reveal(CpuState::ora);
    reveal(CpuState::eor);
    reveal(CpuState::alr);
    reveal(CpuState::arr);
    reveal(CpuState::xaa);
    reveal(CpuState::axs);
}

/// ANC: Zero and Negative follow the accumulator, and Carry is a copy of
/// Negative.
pub proof fn law_anc(s: CpuState, mode: AddressingMode)
    ensures
        flags_follow(s.anc(mode).status, s.anc(mode).reg_a),
        s.anc(mode).status.spec_contains(CARRY) == s.anc(mode).status.spec_contains(NEGATIV),
{
    reveal(CpuState::anc);
    let m = s.operand(mode);
    let result = m.1.reg_a & m.0;
    let after = m.1.status.spec_with_zero_n_negative(result);
    lemma_zero_n_negative(m.1.status, result, CARRY);
    lemma_put_then_contains(after.bits, CARRY, after.spec_contains(NEGATIV));
    lemma_put_keeps_flag(after.bits, CARRY, after.spec_contains(NEGATIV), ZERO);
    lemma_put_keeps_flag(after.bits, CARRY, after.spec_contains(NEGATIV), NEGATIV);
}

/// Shifts, rotates, increments and decrements: Zero and Negative follow
/// the value produced, which is the accumulator when the instruction works
/// on it, and the register for the register forms.
pub proof fn law_shifts_set_zero_negative(s: CpuState, mode: AddressingMode)
    ensures
        flags_follow(s.asl(mode).1.status, s.asl(mode).0),
        flags_follow(s.lsr(mode).1.status, s.lsr(mode).0),
        flags_follow(s.rol(mode).1.status, s.rol(mode).0),
        flags_follow(s.ror(mode).1.status, s.ror(mode).0),
        flags_follow(s.inc(mode).1.status, s.inc(mode).0),
        mode is NoneAddressing ==> {
            &&& s.asl(mode).0 == s.asl(mode).1.reg_a
            &&& s.lsr(mode).0 == s.lsr(mode).1.reg_a
            &&& s.rol(mode).0 == s.rol(mode).1.reg_a
            &&& s.ror(mode).0 == s.ror(mode).1.reg_a
        },
        flags_follow(s.inx().status, s.inx().reg_x),
        flags_follow(s.iny().status, s.iny().reg_y),
        flags_follow(s.dex().status, s.dex().reg_x),
        flags_follow(s.dey().status, s.dey().reg_y),
{
    lemma_flags_follow();
    reveal(CpuState::asl);
    reveal(CpuState::lsr);
    reveal(CpuState::rol);
    reveal(CpuState::ror);
    reveal(CpuState::inc);
}

/// DEC: Zero and Negative follow the decremented operand.
pub proof fn law_dec_sets_zero_negative(s: CpuState, mode: AddressingMode)
    ensures
        ({
            let a = s.operand_address(mode);
            flags_follow(s.dec(mode).status, a.1.read(a.0).0.wrapping_sub(1))
        }),
{
    lemma_flags_follow();
    reveal(CpuState::dec);
}

/// The undocumented read-modify-write instructions: Zero and Negative
/// follow the accumulator after the second half.
pub proof fn law_combined_set_zero_negative(s: CpuState, mode: AddressingMode)
    ensures
        flags_follow(s.slo(mode).status, s.slo(mode).reg_a),
        flags_follow(s.rla(mode).status, s.rla(mode).reg_a),
        flags_follow(s.sre(mode).status, s.sre(mode).reg_a),
        flags_follow(s.rra(mode).status, s.rra(mode).reg_a),
        flags_follow(s.isb(mode).status, s.isb(mode).reg_a),
{
    lemma_flags_follow();
    reveal(CpuState::slo);
    reveal(CpuState::rla);
    reveal(CpuState::sre);
    reveal(CpuState::rra);
    reveal(CpuState::isb);
}

/// Comparison: Carry tells whether the register is at least the operand,
/// Zero whether they are equal, and Negative is bit 7 of their difference
/// modulo 256. The registers are left alone.
pub proof fn law_compare(register: u8, data: u8, status: CpuFlags)
    ensures
        spec_compare(register, data, status).spec_contains(CARRY) == (register >= data),
        spec_compare(register, data, status).spec_contains(ZERO) == (register == data),
        flags_follow(spec_compare(register, data, status), register.wrapping_sub(data)),
{
    let carried = status.spec_with(CARRY, data <= register);
    let difference = register.wrapping_sub(data);
    lemma_put_then_contains(status.bits, CARRY, data <= register);
    lemma_zero_n_negative(carried, difference, CARRY);
}

/// Bit test: Zero tells whether accumulator and operand share no bit;
/// Negative and Overflow are bits 7 and 6 of the operand.
pub proof fn law_bit_test(a: u8, data: u8, status: CpuFlags)
    ensures
        spec_bit_test(a, data, status).spec_contains(ZERO) == (a & data == 0),
        spec_bit_test(a, data, status).spec_contains(OVERFLOW) == (data & 0b0100_0000 != 0),
        spec_bit_test(a, data, status).spec_contains(NEGATIV) == (data & 0b1000_0000 != 0),
{
    let z = status.spec_with(ZERO, a & data == 0);
    let v = z.spec_with(OVERFLOW, data & 0b0100_0000 != 0);
    let n = data & 0b1000_0000 != 0;
    lemma_put_then_contains(status.bits, ZERO, a & data == 0);
    lemma_put_then_contains(z.bits, OVERFLOW, data & 0b0100_0000 != 0);
    lemma_put_then_contains(v.bits, NEGATIV, n);
    lemma_put_keeps_flag(z.bits, OVERFLOW, data & 0b0100_0000 != 0, ZERO);
    lemma_put_keeps_flag(v.bits, NEGATIV, n, ZERO);
    lemma_put_keeps_flag(v.bits, NEGATIV, n, OVERFLOW);
}

/// Addition: the result is the sum of accumulator, operand and Carry
/// modulo 256, and Carry afterwards tells whether the sum went past 255.
pub proof fn law_add_with_carry(a: u8, data: u8, status: CpuFlags)
    ensures
        ({
            let carry: int = if status.spec_contains(CARRY) {
                1
            } else {
                0
            };
            let r = spec_add_with_carry(a, data, status);
            &&& r.0 == (a + data + carry) % 256
            &&& r.1.spec_contains(CARRY) == (a + data + carry > 255)
            &&& r.1.spec_contains(OVERFLOW) == ((a ^ r.0) & (data ^ r.0) & 0x80 != 0)
            &&& flags_follow(r.1, r.0)
        }),
{
    let carry: int = if status.spec_contains(CARRY) {
        1
    } else {
        0
    };
    let sum = a + data + carry;
    let result = (sum % 256) as u8;
    let overflow = (a ^ result) & (data ^ result) & 0x80 != 0;
    let c = status.spec_with(CARRY, sum > 0xff);
    let v = c.spec_with(OVERFLOW, overflow);
    lemma_put_then_contains(status.bits, CARRY, sum > 0xff);
    lemma_put_keeps_flag(c.bits, OVERFLOW, overflow, CARRY);
    lemma_put_then_contains(c.bits, OVERFLOW, overflow);
    lemma_zero_n_negative(v, result, CARRY);
    lemma_zero_n_negative(v, result, OVERFLOW);
}

/// Subtraction undoes addition. Adding an operand with Carry set and
/// then subtracting it restores the accumulator whenever the addition did
/// not go past 255 (it left Carry clear, which the subtraction takes as a
/// borrow). Adding with Carry clear, setting Carry and then subtracting
/// restores the accumulator always.
pub proof fn law_add_then_subtract(a: u8, data: u8, status: CpuFlags)
    ensures
        ({
            let added = spec_add_with_carry(a, data, status);
            let straight = spec_subtract_with_carry(added.0, data, added.1);
            let after_sec = spec_subtract_with_carry(added.0, data, added.1.spec_with(CARRY, true));
            &&& status.spec_contains(CARRY) && !added.1.spec_contains(CARRY) ==> straight.0 == a
            &&& !status.spec_contains(CARRY) ==> after_sec.0 == a
        }),
{
    let added = spec_add_with_carry(a, data, status);
    law_add_with_carry(a, data, status);
    let set = added.1.spec_with(CARRY, true);
    lemma_put_then_contains(added.1.bits, CARRY, true);
    law_add_with_carry(added.0, crate::cpu::alu::spec_complement(data), set);
    law_add_with_carry(added.0, crate::cpu::alu::spec_complement(data), added.1);
}

/// CMP, CPX and CPY: Carry tells whether the register is at least the
/// operand, Zero whether they are equal, and Negative is bit 7 of their
/// difference modulo 256.
pub proof fn law_compare_instruction(s: CpuState, mode: AddressingMode, register: u8)
    ensures
        ({
            let operand = s.operand(mode).0;
            let after = s.compare(mode, register);
            &&& after.status.spec_contains(CARRY) == (register >= operand)
            &&& after.status.spec_contains(ZERO) == (register == operand)
            &&& flags_follow(after.status, register.wrapping_sub(operand))
            &&& after.reg_a == s.operand(mode).1.reg_a
        }),
{
    reveal(CpuState::compare);
    law_compare(register, s.operand(mode).0, s.operand(mode).1.status);
}

/// BIT: Zero tells whether accumulator and operand share no bit; Negative
/// and Overflow are bits 7 and 6 of the operand.
pub proof fn law_bit_instruction(s: CpuState, mode: AddressingMode)
    ensures
        ({
            let fetched = s.operand(mode);
            let after = s.bit(mode);
            &&& after.status.spec_contains(ZERO) == (fetched.1.reg_a & fetched.0 == 0)
            &&& after.status.spec_contains(OVERFLOW) == (fetched.0 & 0b0100_0000 != 0)
            &&& after.status.spec_contains(NEGATIV) == (fetched.0 & 0b1000_0000 != 0)
        }),
{
    reveal(CpuState::bit);
    law_bit_test(s.operand(mode).1.reg_a, s.operand(mode).0, s.operand(mode).1.status);
}

/// DCP: the flags are those of a comparison of the accumulator with the
/// decremented operand.
pub proof fn law_dcp(s: CpuState, mode: AddressingMode)
    ensures
        ({
            let a = s.operand_address(mode);
            let data = a.1.read(a.0).0.wrapping_sub(1);
            let after = s.dcp(mode);
            &&& after.status.spec_contains(CARRY) == (after.reg_a >= data)
            &&& after.status.spec_contains(ZERO) == (after.reg_a == data)
            &&& flags_follow(after.status, after.reg_a.wrapping_sub(data))
        }),
{
    reveal(CpuState::dcp);
    let a = s.operand_address(mode);
    let m = a.1.read(a.0);
    let data = m.0.wrapping_sub(1);
    let w = m.1.write(a.0, data);
    law_compare(w.reg_a, data, w.status);
}

/// A read through the processor leaves the registers alone. If no defect
/// is on record afterwards, none was before, and the read went to the bus.
pub proof fn lemma_read(s: CpuState, addr: u16)
    requires
        s.wf(),
    ensures
        ({
            let r = s.read(addr);
            &&& r.1.wf()
            &&& r.1.reg_a == s.reg_a
            &&& r.1.reg_x == s.reg_x
            &&& r.1.reg_y == s.reg_y
            &&& r.1.stack_pointer == s.stack_pointer
            &&& r.1.status == s.status
            &&& r.1.program_counter == s.program_counter
            &&& r.1.bus.ram == s.bus.ram
            &&& r.1.fault is None ==> {
                &&& s.fault is None
                &&& s.bus.can_read(addr)
                &&& r.0 == s.bus.read(addr).0
                &&& r.1.bus == s.bus.read(addr).1
            }
        }),
{
    if s.fault is None && s.bus.can_read(addr) {
        lemma_read_keeps_memory(s.bus, addr);
    }
}

/// A write to RAM through a processor without a defect sets one cell and
/// nothing else.
pub proof fn lemma_write_ram(s: CpuState, addr: u16, data: u8)
    requires
        s.wf(),
        s.fault is None,
        addr <= RAM_MIRRORS_END,
    ensures
        s.write(addr, data) == (CpuState {
            bus: BusState { ram: s.bus.ram.update((addr % RAM_SIZE) as int, data), ..s.bus },
            ..s
        }),
        s.write(addr, data).wf(),
{
    lemma_ram_write(s.bus, addr, data);
}

/// A 16-bit value written to RAM through a processor without a defect
/// reads back, and reading it changes nothing.
pub proof fn law_ram_word_round_trip(s: CpuState, addr: u16, value: u16)
    requires
        s.wf(),
        s.fault is None,
        addr < RAM_MIRRORS_END,
    ensures
        s.write_u16(addr, value).read_u16(addr) == (value, s.write_u16(addr, value)),
        s.write_u16(addr, value).fault is None,
{
    crate::bus::law_ram_word_round_trip(s.bus, addr, value);
    let next = addr.wrapping_add(1);
    lemma_write_ram(s, addr, spec_low_byte(value));
    let s1 = s.write(addr, spec_low_byte(value));
    lemma_write_ram(s1, next, spec_high_byte(value));
    let s2 = s1.write(next, spec_high_byte(value));
    lemma_ram_write(s2.bus, addr, 0);
    lemma_ram_write(s2.bus, next, 0);
    lemma_read_keeps_memory(s2.bus, addr);
    lemma_read_keeps_memory(s2.bus, next);
}

/// A pull from the stack of a processor without a defect reads the cell
/// above the stack pointer and changes nothing but the pointer.
pub proof fn lemma_stack_pop(s: CpuState)
    requires
        s.wf(),
        s.fault is None,
    ensures
        ({
            let top = s.stack_pointer.wrapping_add(1);
            s.stack_pop() == (
                s.bus.ram[CpuState::stack_addr(top) as int],
                CpuState { stack_pointer: top, ..s },
            )
        }),
{
    let top = s.stack_pointer.wrapping_add(1);
    lemma_ram_write(s.bus, CpuState::stack_addr(top), 0);
    lemma_read_keeps_memory(s.bus, CpuState::stack_addr(top));
}

/// A push on the stack of a processor without a defect sets the cell at
/// the stack pointer and moves the pointer down.
pub proof fn lemma_stack_push(s: CpuState, data: u8)
    requires
        s.wf(),
        s.fault is None,
    ensures
        s.stack_push(data) == (CpuState {
            stack_pointer: s.stack_pointer.wrapping_sub(1),
            bus: BusState {
                ram: s.bus.ram.update(CpuState::stack_addr(s.stack_pointer) as int, data),
                ..s.bus
            },
            ..s
        }),
        s.stack_push(data).wf(),
{
    lemma_write_ram(s, CpuState::stack_addr(s.stack_pointer), data);
}

/// Stack discipline: a 16-bit value pushed is the value pulled, and the
/// pull leaves the stack pointer where it was before the push.
pub proof fn law_stack_word_round_trip(s: CpuState, value: u16)
    requires
        s.wf(),
        s.fault is None,
    ensures
        ({
            let pushed = s.stack_push_u16(value);
            let pulled = pushed.stack_pop_u16();
            &&& pulled.0 == value
            &&& pulled.1 == (CpuState { stack_pointer: s.stack_pointer, ..pushed })
        }),
{
    let high = spec_high_byte(value);
    let low = spec_low_byte(value);
    lemma_stack_push(s, high);
    let s1 = s.stack_push(high);
    lemma_stack_push(s1, low);
    let s2 = s1.stack_push(low);
    lemma_stack_pop(s2);
    let first = s2.stack_pop();
    lemma_stack_pop(first.1);
    lemma_word_of_bytes(value);
}

/// Stack discipline: a byte pushed is the byte pulled, and the pull leaves
/// the stack pointer where it was before the push.
pub proof fn law_stack_byte_round_trip(s: CpuState, value: u8)
    requires
        s.wf(),
        s.fault is None,
    ensures
        ({
            let pushed = s.stack_push(value);
            let pulled = pushed.stack_pop();
            &&& pulled.0 == value
            &&& pulled.1 == (CpuState { stack_pointer: s.stack_pointer, ..pushed })
        }),
{
    lemma_stack_push(s, value);
    lemma_stack_pop(s.stack_push(value));
}

/// The status register pushed and pulled again keeps every flag but Break
/// and Break2: Break comes back cleared and Break2 set.
pub proof fn lemma_pulled_of_pushed(status: CpuFlags, flag: u8)
    requires
        is_single_bit(flag),
    ensures
        ({
            let back = CpuFlags::spec_pulled(status.spec_pushed());
            &&& flag != BREAK && flag != BREAK2 ==> back.spec_contains(flag)
                == status.spec_contains(flag)
            &&& !back.spec_contains(BREAK)
            &&& back.spec_contains(BREAK2)
        }),
{
    let b1 = status.spec_with(BREAK, true);
    let b2 = b1.spec_with(BREAK2, true);
    let b3 = CpuFlags { bits: b2.bits }.spec_with(BREAK, false);
    let b4 = b3.spec_with(BREAK2, true);
    lemma_put_then_contains(b2.bits, BREAK, false);
    lemma_put_keeps_flag(b3.bits, BREAK2, true, BREAK);
    lemma_put_then_contains(b3.bits, BREAK2, true);
    if flag != BREAK && flag != BREAK2 {
        lemma_put_keeps_flag(status.bits, BREAK, true, flag);
        lemma_put_keeps_flag(b1.bits, BREAK2, true, flag);
        lemma_put_keeps_flag(b2.bits, BREAK, false, flag);
        lemma_put_keeps_flag(b3.bits, BREAK2, true, flag);
    }
}

/// PHP then PLP: every flag but Break and Break2 is as before, Break is
/// cleared, Break2 is set, and the stack pointer is back where it was.
pub proof fn law_php_plp_round_trip(s: CpuState, flag: u8)
    requires
        s.wf(),
        s.fault is None,
        is_single_bit(flag),
    ensures
        ({
            let back = s.php().plp();
            &&& flag != BREAK && flag != BREAK2 ==> back.status.spec_contains(flag)
                == s.status.spec_contains(flag)
            &&& !back.status.spec_contains(BREAK)
            &&& back.status.spec_contains(BREAK2)
            &&& back.stack_pointer == s.stack_pointer
            &&& back.fault is None
        }),
{
    reveal(CpuState::php);
    reveal(CpuState::plp);
    lemma_stack_push(s, s.status.spec_pushed());
    law_stack_byte_round_trip(s, s.status.spec_pushed());
    lemma_pulled_of_pushed(s.status, flag);
}

/// The reads of a 16-bit read leave registers and RAM alone.
pub proof fn lemma_read_u16(s: CpuState, pos: u16)
    requires
        s.wf(),
    ensures
        ({
            let r = s.read_u16(pos);
            &&& r.1.wf()
            &&& r.1.reg_a == s.reg_a
            &&& r.1.reg_x == s.reg_x
            &&& r.1.reg_y == s.reg_y
            &&& r.1.stack_pointer == s.stack_pointer
            &&& r.1.status == s.status
            &&& r.1.program_counter == s.program_counter
            &&& r.1.bus.ram == s.bus.ram
            &&& r.1.fault is None ==> s.fault is None
        }),
{
    lemma_read(s, pos);
    lemma_read(s.read(pos).1, pos.wrapping_add(1));
}

/// JSR then RTS: a subroutine call that meets no defect, followed at once
/// by a return, resumes at the instruction after the call, two bytes past
/// the call's first operand byte, with the stack pointer where it was.
pub proof fn law_jsr_rts_round_trip(s: CpuState)
    requires
        s.wf(),
        s.fault is None,
        s.jsr().fault is None,
    ensures
        s.jsr().rts().program_counter == s.program_counter.wrapping_add(2),
        s.jsr().rts().stack_pointer == s.stack_pointer,
        s.jsr().rts().fault is None,
{
    reveal(CpuState::jsr);
    reveal(CpuState::rts);
    let ret = s.program_counter.wrapping_add(1);
    let pushed = s.stack_push_u16(ret);
    law_stack_word_round_trip(s, ret);
    lemma_stack_push(s, spec_high_byte(ret));
    lemma_stack_push(s.stack_push(spec_high_byte(ret)), spec_low_byte(ret));
    lemma_read_u16(pushed, pushed.program_counter);
    let target = pushed.read_u16(pushed.program_counter);
    let called = s.jsr();
    assert(called == CpuState { program_counter: target.0, ..target.1 });
    // the return address is still on the stack
    lemma_stack_pop(called);
    lemma_stack_pop(called.stack_pop().1);
    lemma_stack_pop(pushed);
    lemma_stack_pop(pushed.stack_pop().1);
    lemma_word_of_bytes(ret);
}

} // verus!
