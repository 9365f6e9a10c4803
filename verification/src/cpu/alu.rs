//! The arithmetic of the instructions, on plain values: what each operation
//! computes and what it does to the status register.

use vstd::prelude::*;
use crate::cpu::flags::{CpuFlags, CARRY, NEGATIV, OVERFLOW, ZERO};

verus! {

/// Addition with carry. The sum of the accumulator, the operand and the
/// Carry flag is formed in 16 bits; its low byte is the result. Carry tells
/// whether the sum went past 0xFF; Overflow tells whether both inputs
/// differ in sign from the result.
pub open spec fn spec_add_with_carry(a: u8, data: u8, status: CpuFlags) -> (u8, CpuFlags) {
    let carry: int = if status.spec_contains(CARRY) {
        1
    } else {
        0
    };
    let sum = a + data + carry;
    let result = (sum % 256) as u8;
    (
        result,
        status.spec_with(CARRY, sum > 0xff).spec_with(
            OVERFLOW,
            (a ^ result) & (data ^ result) & 0x80 != 0,
        ).spec_with_zero_n_negative(result),
    )
}

pub fn add_with_carry(a: u8, data: u8, status: CpuFlags) -> (r: (u8, CpuFlags))
    ensures
        r == spec_add_with_carry(a, data, status),
{
    let carry: u16 = if status.contains(CARRY) {
        1
    } else {
        0
    };
    let sum: u16 = a as u16 + data as u16 + carry;
    let result = (sum % 256) as u8;
    (
        result,
        status.with(CARRY, sum > 0xff).with(
            OVERFLOW,
            (a ^ result) & (data ^ result) & 0x80 != 0,
        ).with_zero_n_negative(result),
    )
}

/// The one's complement of a byte: what subtraction feeds to the adder in
/// place of its operand.
pub open spec fn spec_complement(data: u8) -> u8 {
    (255 - data) as u8
}

pub fn complement(data: u8) -> (r: u8)
    ensures
        r == spec_complement(data),
{
    255 - data
}

/// Subtraction with borrow: addition of the operand's complement.
pub open spec fn spec_subtract_with_carry(a: u8, data: u8, status: CpuFlags) -> (u8, CpuFlags) {
    spec_add_with_carry(a, spec_complement(data), status)
}

pub fn subtract_with_carry(a: u8, data: u8, status: CpuFlags) -> (r: (u8, CpuFlags))
    ensures
        r == spec_subtract_with_carry(a, data, status),
{
    add_with_carry(a, complement(data), status)
}

/// Shift left by one bit: bit 7 goes to Carry.
pub open spec fn spec_shift_left(value: u8, status: CpuFlags) -> (u8, CpuFlags) {
    let result = value << 1;
    (
        result,
        status.spec_with(CARRY, value & 0b1000_0000 != 0).spec_with_zero_n_negative(result),
    )
}

pub fn shift_left(value: u8, status: CpuFlags) -> (r: (u8, CpuFlags))
    ensures
        r == spec_shift_left(value, status),
{
    let result = value << 1;
    (result, status.with(CARRY, value & 0b1000_0000 != 0).with_zero_n_negative(result))
}

/// Shift right by one bit: bit 0 goes to Carry.
pub open spec fn spec_shift_right(value: u8, status: CpuFlags) -> (u8, CpuFlags) {
    let result = value >> 1;
    (
        result,
        status.spec_with(CARRY, value & 0b0000_0001 != 0).spec_with_zero_n_negative(result),
    )
}

pub fn shift_right(value: u8, status: CpuFlags) -> (r: (u8, CpuFlags))
    ensures
        r == spec_shift_right(value, status),
{
    let result = value >> 1;
    (result, status.with(CARRY, value & 0b0000_0001 != 0).with_zero_n_negative(result))
}

/// Rotate left through Carry: bit 7 goes to Carry, the old Carry to bit 0.
pub open spec fn spec_rotate_left(value: u8, status: CpuFlags) -> (u8, CpuFlags) {
    let result = if status.spec_contains(CARRY) {
        (value << 1) | 0b0000_0001
    } else {
        value << 1
    };
    (
        result,
        status.spec_with(CARRY, value & 0b1000_0000 != 0).spec_with_zero_n_negative(result),
    )
}

pub fn rotate_left(value: u8, status: CpuFlags) -> (r: (u8, CpuFlags))
    ensures
        r == spec_rotate_left(value, status),
{
    let result = if status.contains(CARRY) {
        (value << 1) | 0b0000_0001
    } else {
        value << 1
    };
    (result, status.with(CARRY, value & 0b1000_0000 != 0).with_zero_n_negative(result))
}

/// Rotate right through Carry: bit 0 goes to Carry, the old Carry to bit 7.
pub open spec fn spec_rotate_right(value: u8, status: CpuFlags) -> (u8, CpuFlags) {
    let result = if status.spec_contains(CARRY) {
        (value >> 1) | 0b1000_0000
    } else {
        value >> 1
    };
    (
        result,
        status.spec_with(CARRY, value & 0b0000_0001 != 0).spec_with_zero_n_negative(result),
    )
}

pub fn rotate_right(value: u8, status: CpuFlags) -> (r: (u8, CpuFlags))
    ensures
        r == spec_rotate_right(value, status),
{
    let result = if status.contains(CARRY) {
        (value >> 1) | 0b1000_0000
    } else {
        value >> 1
    };
    (result, status.with(CARRY, value & 0b0000_0001 != 0).with_zero_n_negative(result))
}

/// Comparison of a register with an operand: Carry tells whether the
/// register is at least the operand; Zero and Negative come from the
/// difference, taken modulo 256.
pub open spec fn spec_compare(register: u8, data: u8, status: CpuFlags) -> CpuFlags {
    status.spec_with(CARRY, data <= register).spec_with_zero_n_negative(
        register.wrapping_sub(data),
    )
}

pub fn compare(register: u8, data: u8, status: CpuFlags) -> (r: CpuFlags)
    ensures
        r == spec_compare(register, data, status),
{
    status.with(CARRY, data <= register).with_zero_n_negative(register.wrapping_sub(data))
}

/// Bit test: Zero tells whether accumulator and operand share no bit;
/// Overflow and Negative are bits 6 and 7 of the operand.
pub open spec fn spec_bit_test(a: u8, data: u8, status: CpuFlags) -> CpuFlags {
    status.spec_with(ZERO, a & data == 0).spec_with(OVERFLOW, data & 0b0100_0000 != 0).spec_with(
        NEGATIV,
        data & 0b1000_0000 != 0,
    )
}

pub fn bit_test(a: u8, data: u8, status: CpuFlags) -> (r: CpuFlags)
    ensures
        r == spec_bit_test(a, data, status),
{
    status.with(ZERO, a & data == 0).with(OVERFLOW, data & 0b0100_0000 != 0).with(
        NEGATIV,
        data & 0b1000_0000 != 0,
    )
}

/// The displacement of a branch as a signed number.
pub open spec fn spec_displacement(offset: u8) -> int {
    if offset < 128 {
        offset as int
    } else {
        offset - 256
    }
}

/// Where a taken branch leads: the displacement, read at `pc`, counts from
/// the address after it. Addresses wrap at the ends of the address space.
pub open spec fn spec_branch_target(pc: u16, offset: u8) -> u16 {
    ((pc + 1 + spec_displacement(offset)) % 0x1_0000) as u16
}

pub fn branch_target(pc: u16, offset: u8) -> (r: u16)
    ensures
        r == spec_branch_target(pc, offset),
{
    let base = pc.wrapping_add(1);
    if offset < 128 {
        base.wrapping_add(offset as u16)
    } else {
        base.wrapping_sub(256 - offset as u16)
    }
}

/// AND, then shift right (ALR).
pub open spec fn spec_and_shift_right(a: u8, data: u8, status: CpuFlags) -> (u8, CpuFlags) {
    let masked = a & data;
    let result = masked >> 1;
    (
        result,
        status.spec_with(CARRY, masked & 0b0000_0001 != 0).spec_with_zero_n_negative(result),
    )
}

pub fn and_shift_right(a: u8, data: u8, status: CpuFlags) -> (r: (u8, CpuFlags))
    ensures
        r == spec_and_shift_right(a, data, status),
{
    let masked = a & data;
    let result = masked >> 1;
    (result, status.with(CARRY, masked & 0b0000_0001 != 0).with_zero_n_negative(result))
}

/// AND, then Carry takes the Negative flag that the AND left (ANC).
pub open spec fn spec_and_carry(a: u8, data: u8, status: CpuFlags) -> (u8, CpuFlags) {
    let result = a & data;
    let after = status.spec_with_zero_n_negative(result);
    (result, after.spec_with(CARRY, after.spec_contains(NEGATIV)))
}

pub fn and_carry(a: u8, data: u8, status: CpuFlags) -> (r: (u8, CpuFlags))
    ensures
        r == spec_and_carry(a, data, status),
{
    let result = a & data;
    let after = status.with_zero_n_negative(result);
    (result, after.with(CARRY, after.contains(NEGATIV)))
}

/// AND, then rotate right; Carry is bit 6 of the result and Overflow tells
/// whether its bits 5 and 6 differ (ARR).
pub open spec fn spec_and_rotate_right(a: u8, data: u8, status: CpuFlags) -> (u8, CpuFlags) {
    let masked = a & data;
    let result = if status.spec_contains(CARRY) {
        (masked >> 1) | 0b1000_0000
    } else {
        masked >> 1
    };
    let bit_5 = (result >> 5) & 1;
    let bit_6 = (result >> 6) & 1;
    (
        result,
        status.spec_with(CARRY, bit_6 == 1).spec_with(
            OVERFLOW,
            bit_5 ^ bit_6 == 1,
        ).spec_with_zero_n_negative(result),
    )
}

pub fn and_rotate_right(a: u8, data: u8, status: CpuFlags) -> (r: (u8, CpuFlags))
    ensures
        r == spec_and_rotate_right(a, data, status),
{
    let masked = a & data;
    let result = if status.contains(CARRY) {
        (masked >> 1) | 0b1000_0000
    } else {
        masked >> 1
    };
    let bit_5 = (result >> 5) & 1;
    let bit_6 = (result >> 6) & 1;
    (
        result,
        status.with(CARRY, bit_6 == 1).with(OVERFLOW, bit_5 ^ bit_6 == 1).with_zero_n_negative(
            result,
        ),
    )
}

} // verus!
