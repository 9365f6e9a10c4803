//! The instructions, one function each.

use vstd::prelude::*;
use crate::cpu::alu;
use crate::cpu::flags::CpuFlags;
use crate::cpu::state::CpuState;
use crate::cpu::{AddressingMode, Fault, CPU};
use crate::mem::Mem;

verus! {

impl CPU {
    /// Fetches the operand of the instruction.
    pub(super) fn operand(&mut self, mode: AddressingMode) -> (data: u8)
        requires
            old(self)@.wf(),
        ensures
            (data, final(self)@) == old(self)@.operand(mode),
            final(self)@.wf(),
    {
        let addr = self.get_operand_address(mode);
        self.mem_read(addr)
    }

    pub(super) fn adc(&mut self, mode: AddressingMode)
        requires
            old(self)@.wf(),
        ensures
            final(self)@ == old(self)@.adc(mode),
            final(self)@.wf(),
    {
        reveal(CpuState::adc);
        let data = self.operand(mode);
        let (result, status) = alu::add_with_carry(self.reg_a, data, self.status);
        self.reg_a = result;
        self.status = status;
    }

    pub(super) fn sbc(&mut self, mode: AddressingMode)
        requires
            old(self)@.wf(),
        ensures
            final(self)@ == old(self)@.sbc(mode),
            final(self)@.wf(),
    {
        reveal(CpuState::sbc);
        let data = self.operand(mode);
        let (result, status) = alu::subtract_with_carry(self.reg_a, data, self.status);
        self.reg_a = result;
        self.status = status;
    }

    pub(super) fn and(&mut self, mode: AddressingMode)
        requires
            old(self)@.wf(),
        ensures
            final(self)@ == old(self)@.and(mode),
            final(self)@.wf(),
    {
        reveal(CpuState::and);
        let data = self.operand(mode);
        self.reg_a = self.reg_a & data;
        self.update_zero_n_negative_flag(self.reg_a);
    }

    pub(super) fn eor(&mut self, mode: AddressingMode)
        requires
            old(self)@.wf(),
        ensures
            final(self)@ == old(self)@.eor(mode),
            final(self)@.wf(),
    {
        reveal(CpuState::eor);
        let data = self.operand(mode);
        self.reg_a = self.reg_a ^ data;
        self.update_zero_n_negative_flag(self.reg_a);
    }

    pub(super) fn ora(&mut self, mode: AddressingMode)
        requires
            old(self)@.wf(),
        ensures
            final(self)@ == old(self)@.ora(mode),
            final(self)@.wf(),
    {
        reveal(CpuState::ora);
        let data = self.operand(mode);
        self.reg_a = self.reg_a | data;
        self.update_zero_n_negative_flag(self.reg_a);
    }

    pub(super) fn asl(&mut self, mode: AddressingMode) -> (result: u8)
        requires
            old(self)@.wf(),
        ensures
            (result, final(self)@) == old(self)@.asl(mode),
            final(self)@.wf(),
    {
        reveal(CpuState::asl);
        match mode {
            AddressingMode::NoneAddressing => {
                let (result, status) = alu::shift_left(self.reg_a, self.status);
                self.reg_a = result;
                self.status = status;
                result
            },
            _ => {
                let addr = self.get_operand_address(mode);
                let data = self.mem_read(addr);
                let (result, status) = alu::shift_left(data, self.status);
                self.mem_write(addr, result);
                self.status = status;
                result
            },
        }
    }

    pub(super) fn lsr(&mut self, mode: AddressingMode) -> (result: u8)
        requires
            old(self)@.wf(),
        ensures
            (result, final(self)@) == old(self)@.lsr(mode),
            final(self)@.wf(),
    {
        reveal(CpuState::lsr);
        match mode {
            AddressingMode::NoneAddressing => {
                let (result, status) = alu::shift_right(self.reg_a, self.status);
                self.reg_a = result;
                self.status = status;
                result
            },
            _ => {
                let addr = self.get_operand_address(mode);
                let data = self.mem_read(addr);
                let (result, status) = alu::shift_right(data, self.status);
                self.mem_write(addr, result);
                self.status = status;
                result
            },
        }
    }

    pub(super) fn rol(&mut self, mode: AddressingMode) -> (result: u8)
        requires
            old(self)@.wf(),
        ensures
            (result, final(self)@) == old(self)@.rol(mode),
            final(self)@.wf(),
    {
        reveal(CpuState::rol);
        match mode {
            AddressingMode::NoneAddressing => {
                let (result, status) = alu::rotate_left(self.reg_a, self.status);
                self.reg_a = result;
                self.status = status;
                result
            },
            _ => {
                let addr = self.get_operand_address(mode);
                let data = self.mem_read(addr);
                let (result, status) = alu::rotate_left(data, self.status);
                self.mem_write(addr, result);
                self.status = status;
                result
            },
        }
    }

    pub(super) fn ror(&mut self, mode: AddressingMode) -> (result: u8)
        requires
            old(self)@.wf(),
        ensures
            (result, final(self)@) == old(self)@.ror(mode),
            final(self)@.wf(),
    {
        reveal(CpuState::ror);
        match mode {
            AddressingMode::NoneAddressing => {
                let (result, status) = alu::rotate_right(self.reg_a, self.status);
                self.reg_a = result;
                self.status = status;
                result
            },
            _ => {
                let addr = self.get_operand_address(mode);
                let data = self.mem_read(addr);
                let (result, status) = alu::rotate_right(data, self.status);
                self.mem_write(addr, result);
                self.status = status;
                result
            },
        }
    }

    pub(super) fn bit(&mut self, mode: AddressingMode)
        requires
            old(self)@.wf(),
        ensures
            final(self)@ == old(self)@.bit(mode),
            final(self)@.wf(),
    {
        reveal(CpuState::bit);
        let data = self.operand(mode);
        self.status = alu::bit_test(self.reg_a, data, self.status);
    }

    pub(super) fn branch(&mut self, condition: bool)
        requires
            old(self)@.wf(),
        ensures
            final(self)@ == old(self)@.branch(condition),
            final(self)@.wf(),
    {
        reveal(CpuState::branch);
        if condition {
            let origin = self.program_counter;
            let jump = self.mem_read(origin);
            self.program_counter = alu::branch_target(origin, jump);
        }
    }

    pub(super) fn compare(&mut self, mode: AddressingMode, compare_with: u8)
        requires
            old(self)@.wf(),
        ensures
            final(self)@ == old(self)@.compare(mode, compare_with),
            final(self)@.wf(),
    {
        reveal(CpuState::compare);
        let data = self.operand(mode);
        self.status = alu::compare(compare_with, data, self.status);
    }

    pub(super) fn dec(&mut self, mode: AddressingMode)
        requires
            old(self)@.wf(),
        ensures
            final(self)@ == old(self)@.dec(mode),
            final(self)@.wf(),
    {
        reveal(CpuState::dec);
        let addr = self.get_operand_address(mode);
        let result = self.mem_read(addr).wrapping_sub(1);
        self.mem_write(addr, result);
        self.update_zero_n_negative_flag(result);
    }

    pub(super) fn inc(&mut self, mode: AddressingMode) -> (result: u8)
        requires
            old(self)@.wf(),
        ensures
            (result, final(self)@) == old(self)@.inc(mode),
            final(self)@.wf(),
    {
        reveal(CpuState::inc);
        let addr = self.get_operand_address(mode);
        let result = self.mem_read(addr).wrapping_add(1);
        self.mem_write(addr, result);
        self.update_zero_n_negative_flag(result);
        result
    }

    pub(super) fn dex(&mut self)
        ensures
            final(self)@ == old(self)@.dex(),
    {
        self.reg_x = self.reg_x.wrapping_sub(1);
        self.update_zero_n_negative_flag(self.reg_x)
    }

    pub(super) fn dey(&mut self)
        ensures
            final(self)@ == old(self)@.dey(),
    {
        self.reg_y = self.reg_y.wrapping_sub(1);
        self.update_zero_n_negative_flag(self.reg_y)
    }

    pub(super) fn inx(&mut self)
        ensures
            final(self)@ == old(self)@.inx(),
    {
        self.reg_x = self.reg_x.wrapping_add(1);
        self.update_zero_n_negative_flag(self.reg_x)
    }

    pub(super) fn iny(&mut self)
        ensures
            final(self)@ == old(self)@.iny(),
    {
        self.reg_y = self.reg_y.wrapping_add(1);
        self.update_zero_n_negative_flag(self.reg_y);
    }

    pub(super) fn jmp(&mut self, mode: AddressingMode)
        requires
            old(self)@.wf(),
        ensures
            final(self)@ == old(self)@.jmp(mode),
            final(self)@.wf(),
    {
        reveal(CpuState::jmp);
        match mode {
            AddressingMode::NoneAddressing => {
                let mem_addr = self.mem_read_u16(self.program_counter);
                self.program_counter = mem_addr;
            },
            AddressingMode::Indirect => {
                let addr = self.mem_read_u16(self.program_counter);
                let indirect_addr = if addr % 256 == 255 {
                    let lo = self.mem_read(addr) as u16;
                    let hi = self.mem_read(addr - 255) as u16;
                    hi * 256 + lo
                } else {
                    self.mem_read_u16(addr)
                };
                self.program_counter = indirect_addr;
            },
            _ => {
                self.raise(Fault::UnsupportedMode(mode));
            },
        }
    }

    pub(super) fn jsr(&mut self)
        requires
            old(self)@.wf(),
        ensures
            final(self)@ == old(self)@.jsr(),
            final(self)@.wf(),
    {
        reveal(CpuState::jsr);
        self.stack_push_u16(self.program_counter.wrapping_add(1));
        self.program_counter = self.mem_read_u16(self.program_counter);
    }

    pub(super) fn lda(&mut self, mode: AddressingMode)
        requires
            old(self)@.wf(),
        ensures
            final(self)@ == old(self)@.lda(mode),
            final(self)@.wf(),
    {
        reveal(CpuState::lda);
        self.reg_a = self.operand(mode);
        self.update_zero_n_negative_flag(self.reg_a)
    }

    pub(super) fn ldx(&mut self, mode: AddressingMode)
        requires
            old(self)@.wf(),
        ensures
            final(self)@ == old(self)@.ldx(mode),
            final(self)@.wf(),
    {
        reveal(CpuState::ldx);
        self.reg_x = self.operand(mode);
        self.update_zero_n_negative_flag(self.reg_x)
    }

    pub(super) fn ldy(&mut self, mode: AddressingMode)
        requires
            old(self)@.wf(),
        ensures
            final(self)@ == old(self)@.ldy(mode),
            final(self)@.wf(),
    {
        reveal(CpuState::ldy);
        self.reg_y = self.operand(mode);
        self.update_zero_n_negative_flag(self.reg_y)
    }

    pub(super) fn pha(&mut self)
        requires
            old(self)@.wf(),
        ensures
            final(self)@ == old(self)@.pha(),
            final(self)@.wf(),
    {
        reveal(CpuState::pha);
        self.stack_push(self.reg_a)
    }

    pub(super) fn php(&mut self)
        requires
            old(self)@.wf(),
        ensures
            final(self)@ == old(self)@.php(),
            final(self)@.wf(),
    {
        reveal(CpuState::php);
        self.stack_push(self.status.pushed());
    }

    pub(super) fn pla(&mut self)
        requires
            old(self)@.wf(),
        ensures
            final(self)@ == old(self)@.pla(),
            final(self)@.wf(),
    {
        reveal(CpuState::pla);
        self.reg_a = self.stack_pop();
        self.update_zero_n_negative_flag(self.reg_a);
    }

    pub(super) fn plp(&mut self)
        requires
            old(self)@.wf(),
        ensures
            final(self)@ == old(self)@.plp(),
            final(self)@.wf(),
    {
        reveal(CpuState::plp);
        let bits = self.stack_pop();
        self.status = CpuFlags::pulled(bits);
    }

    pub(super) fn rti(&mut self)
        requires
            old(self)@.wf(),
        ensures
            final(self)@ == old(self)@.rti(),
            final(self)@.wf(),
    {
        reveal(CpuState::rti);
        let bits = self.stack_pop();
        self.status = CpuFlags::pulled(bits);
        self.program_counter = self.stack_pop_u16();
    }

    pub(super) fn rts(&mut self)
        requires
            old(self)@.wf(),
        ensures
            final(self)@ == old(self)@.rts(),
            final(self)@.wf(),
    {
        reveal(CpuState::rts);
        self.program_counter = self.stack_pop_u16().wrapping_add(1);
    }

    pub(super) fn sta(&mut self, mode: AddressingMode)
        requires
            old(self)@.wf(),
        ensures
            final(self)@ == old(self)@.sta(mode),
            final(self)@.wf(),
    {
        reveal(CpuState::sta);
        let addr = self.get_operand_address(mode);
        self.mem_write(addr, self.reg_a);
    }

    pub(super) fn stx(&mut self, mode: AddressingMode)
        requires
            old(self)@.wf(),
        ensures
            final(self)@ == old(self)@.stx(mode),
            final(self)@.wf(),
    {
        reveal(CpuState::stx);
        let addr = self.get_operand_address(mode);
        self.mem_write(addr, self.reg_x);
    }

    pub(super) fn sty(&mut self, mode: AddressingMode)
        requires
            old(self)@.wf(),
        ensures
            final(self)@ == old(self)@.sty(mode),
            final(self)@.wf(),
    {
        reveal(CpuState::sty);
        let addr = self.get_operand_address(mode);
        self.mem_write(addr, self.reg_y);
    }

    pub(super) fn tax(&mut self)
        ensures
            final(self)@ == old(self)@.tax(),
    {
        self.reg_x = self.reg_a;
        self.update_zero_n_negative_flag(self.reg_x)
    }

    pub(super) fn tay(&mut self)
        ensures
            final(self)@ == old(self)@.tay(),
    {
        self.reg_y = self.reg_a;
        self.update_zero_n_negative_flag(self.reg_y);
    }

    pub(super) fn tsx(&mut self)
        ensures
            final(self)@ == old(self)@.tsx(),
    {
        self.reg_x = self.stack_pointer;
        self.update_zero_n_negative_flag(self.reg_x);
    }

    pub(super) fn txa(&mut self)
        ensures
            final(self)@ == old(self)@.txa(),
    {
        self.reg_a = self.reg_x;
        self.update_zero_n_negative_flag(self.reg_a);
    }

    pub(super) fn txs(&mut self)
        ensures
            final(self)@ == old(self)@.txs(),
    {
        self.stack_pointer = self.reg_x;
    }

    pub(super) fn tya(&mut self)
        ensures
            final(self)@ == old(self)@.tya(),
    {
        self.reg_a = self.reg_y;
        self.update_zero_n_negative_flag(self.reg_a);
    }

    pub(super) fn alr(&mut self, mode: AddressingMode)
        requires
            old(self)@.wf(),
        ensures
            final(self)@ == old(self)@.alr(mode),
            final(self)@.wf(),
    {
        reveal(CpuState::alr);
        let data = self.operand(mode);
        let (result, status) = alu::and_shift_right(self.reg_a, data, self.status);
        self.reg_a = result;
        self.status = status;
    }

    pub(super) fn anc(&mut self, mode: AddressingMode)
        requires
            old(self)@.wf(),
        ensures
            final(self)@ == old(self)@.anc(mode),
            final(self)@.wf(),
    {
        reveal(CpuState::anc);
        let data = self.operand(mode);
        let (result, status) = alu::and_carry(self.reg_a, data, self.status);
        self.reg_a = result;
        self.status = status;
    }

    pub(super) fn arr(&mut self, mode: AddressingMode)
        requires
            old(self)@.wf(),
        ensures
            final(self)@ == old(self)@.arr(mode),
            final(self)@.wf(),
    {
        reveal(CpuState::arr);
        let data = self.operand(mode);
        let (result, status) = alu::and_rotate_right(self.reg_a, data, self.status);
        self.reg_a = result;
        self.status = status;
    }

    pub(super) fn axs(&mut self, mode: AddressingMode)
        requires
            old(self)@.wf(),
        ensures
            final(self)@ == old(self)@.axs(mode),
            final(self)@.wf(),
    {
        reveal(CpuState::axs);
        let data = self.operand(mode);
        let x_and_a = self.reg_x & self.reg_a;
        self.status = alu::compare(x_and_a, data, self.status);
        self.reg_x = x_and_a.wrapping_sub(data);
    }

    pub(super) fn lax(&mut self, mode: AddressingMode)
        requires
            old(self)@.wf(),
        ensures
            final(self)@ == old(self)@.lax(mode),
            final(self)@.wf(),
    {
        reveal(CpuState::lax);
        let data = self.operand(mode);
        self.reg_a = data;
        self.reg_x = self.reg_a;
        self.update_zero_n_negative_flag(data);
    }

    pub(super) fn sax(&mut self, mode: AddressingMode)
        requires
            old(self)@.wf(),
        ensures
            final(self)@ == old(self)@.sax(mode),
            final(self)@.wf(),
    {
        reveal(CpuState::sax);
        let data = self.reg_a & self.reg_x;
        let addr = self.get_operand_address(mode);
        self.mem_write(addr, data);
    }

    pub(super) fn dcp(&mut self, mode: AddressingMode)
        requires
            old(self)@.wf(),
        ensures
            final(self)@ == old(self)@.dcp(mode),
            final(self)@.wf(),
    {
        reveal(CpuState::dcp);
        let addr = self.get_operand_address(mode);
        let data = self.mem_read(addr).wrapping_sub(1);
        self.mem_write(addr, data);
        self.status = alu::compare(self.reg_a, data, self.status);
    }

    pub(super) fn isb(&mut self, mode: AddressingMode)
        requires
            old(self)@.wf(),
        ensures
            final(self)@ == old(self)@.isb(mode),
            final(self)@.wf(),
    {
        reveal(CpuState::isb);
        let base_data = self.inc(mode);
        let (result, status) = alu::subtract_with_carry(self.reg_a, base_data, self.status);
        self.reg_a = result;
        self.status = status;
    }

    pub(super) fn rla(&mut self, mode: AddressingMode)
        requires
            old(self)@.wf(),
        ensures
            final(self)@ == old(self)@.rla(mode),
            final(self)@.wf(),
    {
        reveal(CpuState::rla);
        let data = self.rol(mode);
        self.reg_a = self.reg_a & data;
        self.update_zero_n_negative_flag(self.reg_a);
    }

    pub(super) fn rra(&mut self, mode: AddressingMode)
        requires
            old(self)@.wf(),
        ensures
            final(self)@ == old(self)@.rra(mode),
            final(self)@.wf(),
    {
        reveal(CpuState::rra);
        let data = self.ror(mode);
        let (result, status) = alu::add_with_carry(self.reg_a, data, self.status);
        self.reg_a = result;
        self.status = status;
    }

    pub(super) fn slo(&mut self, mode: AddressingMode)
        requires
            old(self)@.wf(),
        ensures
            final(self)@ == old(self)@.slo(mode),
            final(self)@.wf(),
    {
        reveal(CpuState::slo);
        let data = self.asl(mode);
        self.reg_a = self.reg_a | data;
        self.update_zero_n_negative_flag(self.reg_a);
    }

    pub(super) fn sre(&mut self, mode: AddressingMode)
        requires
            old(self)@.wf(),
        ensures
            final(self)@ == old(self)@.sre(mode),
            final(self)@.wf(),
    {
        reveal(CpuState::sre);
        let data = self.lsr(mode);
        self.reg_a = self.reg_a ^ data;
        self.update_zero_n_negative_flag(self.reg_a);
    }

    pub(super) fn nop(&mut self, mode: AddressingMode)
        requires
            old(self)@.wf(),
        ensures
            final(self)@ == old(self)@.nop(mode),
            final(self)@.wf(),
    {
        reveal(CpuState::nop);
        match mode {
            AddressingMode::Immediate => {},
            AddressingMode::NoneAddressing => {},
            _ => {
                let _data = self.operand(mode);
            },
        }
    }

    pub(super) fn lxa(&mut self, mode: AddressingMode)
        requires
            old(self)@.wf(),
        ensures
            final(self)@ == old(self)@.lxa(mode),
            final(self)@.wf(),
    {
        reveal(CpuState::lxa);
        self.lda(mode);
        self.tax();
    }

    pub(super) fn xaa(&mut self, mode: AddressingMode)
        requires
            old(self)@.wf(),
        ensures
            final(self)@ == old(self)@.xaa(mode),
            final(self)@.wf(),
    {
        reveal(CpuState::xaa);
        self.txa();
        self.and(mode);
    }

    pub(super) fn las(&mut self, mode: AddressingMode)
        requires
            old(self)@.wf(),
        ensures
            final(self)@ == old(self)@.las(mode),
            final(self)@.wf(),
    {
        reveal(CpuState::las);
        let data = self.operand(mode) & self.stack_pointer;
        self.reg_a = data;
        self.reg_x = data;
        self.stack_pointer = data;
        self.update_zero_n_negative_flag(data);
    }

    pub(super) fn indexed_target(&mut self, index: u8) -> (addr: u16)
        requires
            old(self)@.wf(),
        ensures
            (addr, final(self)@) == old(self)@.indexed_target(index),
            final(self)@.wf(),
    {
        self.mem_read_u16(self.program_counter).wrapping_add(index as u16)
    }

    pub(super) fn high_plus_one(addr: u16) -> (r: u8)
        ensures
            r == CpuState::high_plus_one(addr),
    {
        ((addr / 256) as u8).wrapping_add(1)
    }

    pub(super) fn tas(&mut self)
        requires
            old(self)@.wf(),
        ensures
            final(self)@ == old(self)@.tas(),
            final(self)@.wf(),
    {
        reveal(CpuState::tas);
        let data = self.reg_a & self.reg_x;
        self.stack_pointer = data;
        let mem_address = self.indexed_target(self.reg_y);

        let data = Self::high_plus_one(mem_address) & self.stack_pointer;
        self.mem_write(mem_address, data)
    }

    pub(super) fn ahx(&mut self, mode: AddressingMode)
        requires
            old(self)@.wf(),
        ensures
            final(self)@ == old(self)@.ahx(mode),
            final(self)@.wf(),
    {
        reveal(CpuState::ahx);
        match mode {
            AddressingMode::Indirect_Y => {
                let pos: u8 = self.mem_read(self.program_counter);
                let mem_address = self.mem_read_u16(pos as u16).wrapping_add(self.reg_y as u16);
                let data = self.reg_a & self.reg_x & (mem_address / 256) as u8;
                self.mem_write(mem_address, data)
            },
            AddressingMode::Absolute_Y => {
                let mem_address = self.indexed_target(self.reg_y);
                let data = self.reg_a & self.reg_x & (mem_address / 256) as u8;
                self.mem_write(mem_address, data)
            },
            _ => {},
        }
    }

    pub(super) fn shx(&mut self)
        requires
            old(self)@.wf(),
        ensures
            final(self)@ == old(self)@.shx(),
            final(self)@.wf(),
    {
        reveal(CpuState::shx);
        let mem_address = self.indexed_target(self.reg_y);
        let data = self.reg_x & Self::high_plus_one(mem_address);
        self.mem_write(mem_address, data)
    }

    pub(super) fn shy(&mut self)
        requires
            old(self)@.wf(),
        ensures
            final(self)@ == old(self)@.shy(),
            final(self)@.wf(),
    {
        reveal(CpuState::shy);
        let mem_address = self.indexed_target(self.reg_x);
        let data = self.reg_y & Self::high_plus_one(mem_address);
        self.mem_write(mem_address, data)
    }
}

} // verus!
