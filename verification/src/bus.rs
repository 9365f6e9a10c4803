//! The bus: the CPU's address space, decoded into RAM, the registers of the
//! graphics and audio units, the controller ports and cartridge ROM.

use vstd::prelude::*;
use crate::apu::NesAPU;
use crate::cartridge::Rom;
use crate::joypad::Joypad;
use crate::mem::{spec_high_byte, spec_low_byte, spec_word, Mem};
use crate::ppu::timing::{
    dots_per_frame,
    frame_position,
    law_interrupt_after,
    law_interrupt_from,
    lemma_ticks_counters,
    lemma_ticks_position,
    vblank_start,
};
use crate::ppu::{NesPPU, PpuState, PPU};

verus! {

/// Last address of the mirrors of the 2 KB of RAM.
pub const RAM_MIRRORS_END: u16 = 0x1FFF;

/// First address of the registers of the graphics unit.
pub const PPU_REGISTERS: u16 = 0x2000;

/// Last address of the mirrors of the registers of the graphics unit.
pub const PPU_REGISTERS_MIRRORS_END: u16 = 0x3FFF;

/// The register whose write starts a bulk load of object-attribute memory.
pub const OAM_DMA: u16 = 0x4014;

/// The port of the first controller.
pub const JOYPAD1: u16 = 0x4016;

/// The port of the second controller.
pub const JOYPAD2: u16 = 0x4017;

/// First address of cartridge ROM.
pub const PRG_ROM_START: u16 = 0x8000;

/// Size in bytes of the RAM.
pub const RAM_SIZE: u16 = 0x0800;

/// Dots of the graphics unit in one CPU cycle.
pub const DOTS_PER_CPU_CYCLE: u16 = 3;

/// The state of everything behind the bus, as mathematical values.
#[verifier::ext_equal]
pub struct BusState {
    pub ram: Seq<u8>,
    pub prg_rom: Seq<u8>,
    pub ppu: PpuState,
    pub apu: NesAPU,
    pub cycles: usize,
    pub joypad1: Joypad,
}

impl BusState {
    pub open spec fn wf(self) -> bool {
        &&& self.ram.len() == RAM_SIZE
        &&& self.ppu.wf()
        &&& self.apu.wf()
    }

    /// The state of a bus just built around a cartridge.
    pub open spec fn initial(rom: Rom) -> BusState {
        BusState {
            ram: Seq::new(RAM_SIZE as nat, |i: int| 0u8),
            prg_rom: rom.prg_rom@,
            ppu: PpuState::initial(rom.chr_rom@, rom.is_chr_ram, rom.screen_mirroring),
            apu: NesAPU::spec_new(),
            cycles: 0,
            joypad1: Joypad { strobe: false, button_index: 0, button_status: 0 },
        }
    }

    /// Index in PRG-ROM of an address from 0x8000 up. A ROM of a single
    /// 16 KB bank shows twice.
    pub open spec fn prg_index(self, addr: u16) -> int {
        let offset = addr - PRG_ROM_START;
        if self.prg_rom.len() == 0x4000 && offset >= 0x4000 {
            offset % 0x4000
        } else {
            offset
        }
    }

    /// `addr` lies in cartridge ROM, and the ROM holds a byte for it.
    pub open spec fn rom_covers(self, addr: u16) -> bool {
        addr >= PRG_ROM_START && self.prg_index(addr) < self.prg_rom.len()
    }

    /// The state with the byte of ROM that shows at `addr` replaced: what a
    /// loader does to a cartridge image, and no write on the bus can do.
    pub open spec fn patch_rom(self, addr: u16, data: u8) -> BusState {
        BusState { prg_rom: self.prg_rom.update(self.prg_index(addr), data), ..self }
    }

    /// `addr` may be read: it is not a write-only register, and where it
    /// leads to a memory, the cell exists.
    #[verifier::opaque]
    pub open spec fn can_read(self, addr: u16) -> bool {
        if addr <= RAM_MIRRORS_END {
            true
        } else if addr <= PPU_REGISTERS_MIRRORS_END {
            let register = addr % 8;
            register == 2 || register == 4 || (register == 7 && self.ppu.data_read_ok())
        } else if addr == OAM_DMA {
            false
        } else if addr < PRG_ROM_START {
            true
        } else {
            self.prg_index(addr) < self.prg_rom.len()
        }
    }

    /// The byte read at `addr`, and the state after the read.
    ///
    /// RAM shows every 0x0800 bytes up to 0x1FFF. The eight registers of
    /// the graphics unit show every 8 bytes from 0x2000 to 0x3FFF; Status,
    /// OAM data and Data can be read. The audio registers read 0, as does
    /// the second controller port and every address that nothing is mapped
    /// to. The first controller port reads the controller. From 0x8000 up
    /// the cartridge's PRG-ROM shows.
    #[verifier::opaque]
    pub open spec fn read(self, addr: u16) -> (u8, BusState) {
        if addr <= RAM_MIRRORS_END {
            (self.ram[(addr % RAM_SIZE) as int], self)
        } else if addr <= PPU_REGISTERS_MIRRORS_END {
            let register = addr % 8;
            if register == 2 {
                let r = self.ppu.read_status();
                (r.0, BusState { ppu: r.1, ..self })
            } else if register == 4 {
                (self.ppu.read_oam_data(), self)
            } else {
                let r = self.ppu.read_data();
                (r.0, BusState { ppu: r.1, ..self })
            }
        } else if addr == JOYPAD1 {
            (
                self.joypad1.spec_read_value(),
                BusState { joypad1: self.joypad1.spec_after_read(), ..self },
            )
        } else if addr < PRG_ROM_START {
            (0u8, self)
        } else {
            (self.prg_rom[self.prg_index(addr)], self)
        }
    }

    /// Both byte reads of a 16-bit read at `pos` are allowed.
    pub open spec fn can_read_u16(self, pos: u16) -> bool {
        self.can_read(pos) && self.read(pos).1.can_read(pos.wrapping_add(1))
    }

    /// The value of a 16-bit little-endian read at `pos`, and the state
    /// after its two byte reads.
    pub open spec fn read_u16(self, pos: u16) -> (u16, BusState) {
        let low = self.read(pos);
        let high = low.1.read(pos.wrapping_add(1));
        (spec_word(low.0, high.0), high.1)
    }

    /// Both byte writes of a 16-bit write at `pos` are allowed.
    pub open spec fn can_write_u16(self, pos: u16, data: u16) -> bool {
        &&& self.can_write(pos, spec_low_byte(data))
        &&& self.write(pos, spec_low_byte(data)).can_write(
            pos.wrapping_add(1),
            spec_high_byte(data),
        )
    }

    /// The state after a 16-bit little-endian write at `pos`.
    pub open spec fn write_u16(self, pos: u16, data: u16) -> BusState {
        self.write(pos, spec_low_byte(data)).write(pos.wrapping_add(1), spec_high_byte(data))
    }

    /// The 256 bytes of page `page`, as a bulk load of object-attribute
    /// memory reads them.
    pub open spec fn dma_page(self, page: u8) -> Seq<u8> {
        Seq::new(256, |i: int| self.read((page * 256 + i) as u16).0)
    }

    /// Every byte of page `page` may be read: the page holds no write-only
    /// register and, where it lies in ROM, the ROM covers it.
    pub open spec fn can_read_page(self, page: u8) -> bool {
        forall|i: int| 0 <= i < 256 ==> #[trigger] self.can_read((page * 256 + i) as u16)
    }

    /// `data` may be written to `addr`: it is neither Status nor ROM, a
    /// write to Data falls on a cell that exists, and a bulk load of
    /// object-attribute memory names a page that may be read.
    #[verifier::opaque]
    pub open spec fn can_write(self, addr: u16, data: u8) -> bool {
        if addr <= RAM_MIRRORS_END {
            true
        } else if addr <= PPU_REGISTERS_MIRRORS_END {
            let register = addr % 8;
            register != 2 && (register == 7 ==> self.ppu.data_write_ok())
        } else if addr == OAM_DMA {
            (data < 0x20 || data > 0x40) && self.can_read_page(data)
        } else {
            addr < PRG_ROM_START
        }
    }

    /// The state after `data` was written to `addr`.
    ///
    /// A write to RAM sets the cell. A write to a register of the graphics
    /// unit goes to that register. A write to 0x4014 loads object-attribute
    /// memory with page `data` of this address space. The other addresses
    /// from 0x4000 to 0x4015 belong to the audio unit. A write to the first
    /// controller port goes to the controller. Every other write below
    /// 0x8000 is dropped.
    #[verifier::opaque]
    pub open spec fn write(self, addr: u16, data: u8) -> BusState {
        if addr <= RAM_MIRRORS_END {
            BusState { ram: self.ram.update((addr % RAM_SIZE) as int, data), ..self }
        } else if addr <= PPU_REGISTERS_MIRRORS_END {
            let register = addr % 8;
            BusState {
                ppu: if register == 0 {
                    self.ppu.write_to_ctrl(data)
                } else if register == 1 {
                    self.ppu.write_to_mask(data)
                } else if register == 3 {
                    self.ppu.write_to_oam_addr(data)
                } else if register == 4 {
                    self.ppu.write_to_oam_data(data)
                } else if register == 5 {
                    self.ppu.write_to_scroll(data)
                } else if register == 6 {
                    self.ppu.write_to_ppu_addr(data)
                } else {
                    self.ppu.write_to_data(data)
                },
                ..self
            }
        } else if addr == OAM_DMA {
            BusState { ppu: self.ppu.write_oam_dma(self.dma_page(data)), ..self }
        } else if addr < JOYPAD1 {
            BusState { apu: self.apu.spec_write(addr, data), ..self }
        } else if addr == JOYPAD1 {
            BusState { joypad1: self.joypad1.spec_write(data), ..self }
        } else {
            self
        }
    }

    /// The state after `cycles` CPU cycles passed: the cycle counter moved
    /// on (wrapping at the end of its range) and the graphics unit advanced
    /// three dots for each cycle.
    pub open spec fn tick(self, cycles: u8) -> BusState {
        BusState {
            cycles: self.cycles.wrapping_add(cycles as usize),
            ppu: self.ppu.ticks((DOTS_PER_CPU_CYCLE * cycles) as nat),
            ..self
        }
    }

    /// The pending interrupt of the graphics unit rises over `cycles` CPU
    /// cycles: it is not pending now and is pending afterwards.
    pub open spec fn frame_due(self, cycles: u8) -> bool {
        self.ppu.nmi is None && self.tick(cycles).ppu.nmi is Some
    }
}

/// Reads leave RAM and ROM as they are, and keep the state well-formed.
pub proof fn lemma_read_keeps_memory(s: BusState, addr: u16)
    requires
        s.wf(),
        s.can_read(addr),
    ensures
        s.read(addr).1.ram == s.ram,
        s.read(addr).1.prg_rom == s.prg_rom,
        s.read(addr).1.wf(),
        addr <= RAM_MIRRORS_END ==> s.read(addr) == (s.ram[(addr % RAM_SIZE) as int], s),
{
    reveal(BusState::can_read);
    reveal(BusState::read);
}

/// No write on the bus changes ROM.
pub proof fn lemma_write_keeps_rom(s: BusState, addr: u16, data: u8)
    ensures
        s.write(addr, data).prg_rom == s.prg_rom,
{
    reveal(BusState::write);
}

/// A byte of ROM reads as it was patched, and reading it changes nothing.
pub proof fn law_patched_rom_reads_back(s: BusState, addr: u16, data: u8)
    requires
        s.wf(),
        s.rom_covers(addr),
    ensures
        s.patch_rom(addr, data).wf(),
        s.patch_rom(addr, data).can_read(addr),
        s.patch_rom(addr, data).read(addr) == (data, s.patch_rom(addr, data)),
        forall|other: u16|
            s.rom_covers(other) ==> #[trigger] s.patch_rom(addr, data).rom_covers(other),
{
    reveal(BusState::can_read);
    reveal(BusState::read);
}

/// A write to RAM sets one cell and nothing else; RAM can always be read
/// and written.
pub proof fn lemma_ram_write(s: BusState, addr: u16, data: u8)
    requires
        s.wf(),
        addr <= RAM_MIRRORS_END,
    ensures
        s.can_write(addr, data),
        s.can_read(addr),
        s.write(addr, data) == (BusState {
            ram: s.ram.update((addr % RAM_SIZE) as int, data),
            ..s
        }),
        s.write(addr, data).wf(),
{
    reveal(BusState::can_read);
    reveal(BusState::can_write);
    reveal(BusState::write);
}

/// A 16-bit value written to RAM reads back, and reading it changes
/// nothing. This holds where both bytes fall into RAM; elsewhere a write
/// may be dropped or forbidden, or the read may have effects of its own.
pub proof fn law_ram_word_round_trip(s: BusState, addr: u16, value: u16)
    requires
        s.wf(),
        addr < RAM_MIRRORS_END,
    ensures
        s.can_write_u16(addr, value),
        s.write_u16(addr, value).can_read_u16(addr),
        s.write_u16(addr, value).read_u16(addr) == (value, s.write_u16(addr, value)),
{
    reveal(BusState::can_read);
    let low = spec_low_byte(value);
    let high = spec_high_byte(value);
    let next = addr.wrapping_add(1);
    lemma_ram_write(s, addr, low);
    let s1 = s.write(addr, low);
    lemma_ram_write(s1, next, high);
    let s2 = s1.write(next, high);
    lemma_read_keeps_memory(s2, addr);
    lemma_read_keeps_memory(s2, next);
    crate::mem::lemma_word_of_bytes(value);
}

/// Reads of RAM, of ROM and of addresses that nothing is mapped to change
/// nothing: the same read gives the same byte again.
pub proof fn law_memory_reads_change_nothing(s: BusState, addr: u16)
    requires
        s.wf(),
        s.can_read(addr),
        addr <= RAM_MIRRORS_END || addr > JOYPAD1,
    ensures
        s.read(addr).1 == s,
{
    reveal(BusState::can_read);
    reveal(BusState::read);
}

/// The CPU cycles of a sequence of ticks, added up.
pub open spec fn total_cycles(cycles: Seq<u8>) -> nat
    decreases cycles.len(),
{
    if cycles.len() == 0 {
        0
    } else {
        cycles[0] as nat + total_cycles(cycles.drop_first())
    }
}

/// The number of ticks, in a sequence of ticks of the given lengths, at
/// which a frame is due.
pub open spec fn frames_due(s: BusState, cycles: Seq<u8>) -> nat
    decreases cycles.len(),
{
    if cycles.len() == 0 {
        0
    } else {
        let now: nat = if s.frame_due(cycles[0]) {
            1
        } else {
            0
        };
        now + frames_due(s.tick(cycles[0]), cycles.drop_first())
    }
}

/// One frame, one frame due. Over any sequence of ticks that ends before
/// the vertical blank of the next frame, a frame is due exactly once if no
/// interrupt is pending at the start, Control asks for the interrupt and
/// the ticks cross into the vertical blank; otherwise at no tick. So a
/// sequence that starts with the frame and covers it reports one frame,
/// whatever the lengths of its ticks.
pub proof fn law_one_frame_per_frame(s: BusState, cycles: Seq<u8>)
    requires
        s.wf(),
        frame_position(s.ppu) + DOTS_PER_CPU_CYCLE * total_cycles(cycles) < dots_per_frame()
            + vblank_start(),
    ensures
        frames_due(s, cycles) == (if s.ppu.nmi is None && s.ppu.ctrl.spec_generate_vblank_nmi()
            && frame_position(s.ppu) < vblank_start() <= frame_position(s.ppu) + DOTS_PER_CPU_CYCLE
            * total_cycles(cycles) {
            1nat
        } else {
            0nat
        }),
    decreases cycles.len(),
{
    if cycles.len() == 0 {
    } else {
        let dots = (DOTS_PER_CPU_CYCLE * cycles[0]) as nat;
        let next = s.tick(cycles[0]);
        lemma_ticks_counters(s.ppu, dots);
        lemma_ticks_position(s.ppu, dots);
        law_interrupt_after(s.ppu, dots);
        law_one_frame_per_frame(next, cycles.drop_first());
    }
}

/// A frame is due exactly once per frame: with no interrupt pending, the
/// cycles that pass raise it if and only if Control asks for the interrupt
/// and the beam crosses into the vertical blank during them.
pub proof fn law_frame_due(s: BusState, cycles: u8)
    requires
        s.wf(),
        s.ppu.nmi is None,
    ensures
        s.frame_due(cycles) <==> (s.ppu.ctrl.spec_generate_vblank_nmi() && frame_position(s.ppu)
            < vblank_start() <= frame_position(s.ppu) + DOTS_PER_CPU_CYCLE * cycles),
{
    law_interrupt_from(s.ppu, (DOTS_PER_CPU_CYCLE * cycles) as nat);
}

pub struct Bus {
    pub cpu_vram: [u8; 2048],
    pub prg_rom: Vec<u8>,
    pub ppu: NesPPU,
    pub apu: NesAPU,
    pub cycles: usize,
    pub joypad1: Joypad,
}

impl View for Bus {
    type V = BusState;

    open spec fn view(&self) -> BusState {
        BusState {
            ram: self.cpu_vram@,
            prg_rom: self.prg_rom@,
            ppu: self.ppu@,
            apu: self.apu,
            cycles: self.cycles,
            joypad1: self.joypad1,
        }
    }
}

impl Bus {
    /// A bus with cleared RAM around the memories of a cartridge.
    pub fn new(rom: Rom) -> (r: Bus)
        ensures
            r@ == BusState::initial(rom),
            r@.wf(),
    {
        let ppu = NesPPU::new(rom.chr_rom, rom.is_chr_ram, rom.screen_mirroring);
        Bus {
            cpu_vram: [0; 2048],
            prg_rom: rom.prg_rom,
            ppu,
            apu: NesAPU::new(),
            cycles: 0,
            joypad1: Joypad::new(),
        }
    }

    /// Tells whether the units behind the bus are in states that their
    /// operations accept.
    pub fn well_formed(&self) -> (r: bool)
        ensures
            r == self@.wf(),
    {
        self.ppu.well_formed() && self.apu.well_formed()
    }

    /// Tells whether `addr` lies in cartridge ROM and the ROM holds a byte
    /// for it.
    pub fn rom_covers(&self, addr: u16) -> (r: bool)
        ensures
            r == self@.rom_covers(addr),
    {
        addr >= PRG_ROM_START && self.prg_index(addr) < self.prg_rom.len()
    }

    /// Replaces the byte of ROM that shows at `addr`, as a loader patches a
    /// cartridge image.
    pub fn patch_rom(&mut self, addr: u16, data: u8)
        requires
            old(self)@.rom_covers(addr),
        ensures
            final(self)@ == old(self)@.patch_rom(addr, data),
    {
        let index = self.prg_index(addr);
        self.prg_rom[index] = data;
    }

    fn prg_index(&self, addr: u16) -> (r: usize)
        requires
            addr >= PRG_ROM_START,
        ensures
            r == self@.prg_index(addr),
    {
        let mut offset = addr - PRG_ROM_START;
        if self.prg_rom.len() == 0x4000 && offset >= 0x4000 {
            offset %= 0x4000;
        }
        offset as usize
    }

    fn read_prg_rom(&self, addr: u16) -> (r: u8)
        requires
            addr >= PRG_ROM_START,
            self@.prg_index(addr) < self@.prg_rom.len(),
        ensures
            r == self@.prg_rom[self@.prg_index(addr)],
    {
        self.prg_rom[self.prg_index(addr)]
    }

    /// Tells whether `addr` may be read.
    pub fn can_read(&self, addr: u16) -> (r: bool)
        requires
            self@.wf(),
        ensures
            r == self@.can_read(addr),
    {
        reveal(BusState::can_read);
        if addr <= RAM_MIRRORS_END {
            true
        } else if addr <= PPU_REGISTERS_MIRRORS_END {
            let register = addr % 8;
            register == 2 || register == 4 || (register == 7 && self.ppu.data_read_ok())
        } else if addr == OAM_DMA {
            false
        } else if addr < PRG_ROM_START {
            true
        } else {
            self.prg_index(addr) < self.prg_rom.len()
        }
    }

    /// Tells whether every byte of page `page` may be read, for a page
    /// outside the registers.
    fn can_read_page(&self, page: u8) -> (r: bool)
        requires
            self@.wf(),
            page < 0x20 || page > 0x40,
        ensures
            r == self@.can_read_page(page),
    {
        reveal(BusState::can_read);
        if page < 0x80 {
            assert forall|i: int| 0 <= i < 256 implies #[trigger] self@.can_read(
                (page * 256 + i) as u16,
            ) by {}
            true
        } else {
            let first = page as u16 * 256;
            let last = first + 255;
            let ok = self.can_read(first) && self.can_read(last);
            proof {
                if ok {
                    assert forall|i: int| 0 <= i < 256 implies #[trigger] self@.can_read(
                        (page * 256 + i) as u16,
                    ) by {
                        let a = (page * 256 + i) as u16;
                        assert(first <= a <= last);
                    }
                } else {
                    assert(!self@.can_read((page * 256 + 0) as u16) || !self@.can_read(
                        (page * 256 + 255) as u16,
                    ));
                }
            }
            ok
        }
    }

    /// Tells whether `data` may be written to `addr`.
    pub fn can_write(&self, addr: u16, data: u8) -> (r: bool)
        requires
            self@.wf(),
        ensures
            r == self@.can_write(addr, data),
    {
        reveal(BusState::can_write);
        if addr <= RAM_MIRRORS_END {
            true
        } else if addr <= PPU_REGISTERS_MIRRORS_END {
            let register = addr % 8;
            register != 2 && (register != 7 || self.ppu.data_write_ok())
        } else if addr == OAM_DMA {
            (data < 0x20 || data > 0x40) && self.can_read_page(data)
        } else {
            addr < PRG_ROM_START
        }
    }

    /// Lets `cycles` CPU cycles pass, and tells whether the pending
    /// interrupt of the graphics unit rose meanwhile: the moment at which a
    /// finished frame is to be shown and the controllers are to be polled.
    pub fn tick(&mut self, cycles: u8) -> (frame_due: bool)
        requires
            old(self)@.wf(),
        ensures
            final(self)@ == old(self)@.tick(cycles),
            frame_due == old(self)@.frame_due(cycles),
            final(self)@.wf(),
    {
        self.cycles = self.cycles.wrapping_add(cycles as usize);

        let nmi_before = self.ppu.nmi_interrupt.is_some();
        let dots: u16 = cycles as u16 * DOTS_PER_CPU_CYCLE;
        let mut done: u16 = 0;
        while done < dots
            invariant
                done <= dots,
                self.ppu@.wf(),
                old(self)@.ppu.ticks(dots as nat) == self.ppu@.ticks((dots - done) as nat),
                self.cpu_vram == old(self).cpu_vram,
                self.prg_rom == old(self).prg_rom,
                self.apu == old(self).apu,
                self.joypad1 == old(self).joypad1,
                self.cycles == old(self).cycles.wrapping_add(cycles as usize),
            decreases dots - done,
        {
            self.ppu.tick();
            done += 1;
        }
        let nmi_after = self.ppu.nmi_interrupt.is_some();

        !nmi_before && nmi_after
    }

    /// Takes the pending interrupt of the graphics unit, if there is one.
    pub fn poll_nmi_status(&mut self) -> (r: Option<u8>)
        ensures
            r == old(self)@.ppu.nmi,
            final(self)@ == (BusState { ppu: old(self)@.ppu.poll_nmi_interrupt().1, ..old(self)@ }),
    {
        self.ppu.poll_nmi_interrupt()
    }
}

impl Mem for Bus {
    type State = BusState;

    open spec fn mem_state(&self) -> BusState {
        self@
    }

    open spec fn mem_wf(s: BusState) -> bool {
        s.wf()
    }

    open spec fn spec_can_read(s: BusState, addr: u16) -> bool {
        s.can_read(addr)
    }

    open spec fn spec_read(s: BusState, addr: u16) -> (u8, BusState) {
        s.read(addr)
    }

    open spec fn spec_can_write(s: BusState, addr: u16, data: u8) -> bool {
        s.can_write(addr, data)
    }

    open spec fn spec_write(s: BusState, addr: u16, data: u8) -> BusState {
        s.write(addr, data)
    }

    fn mem_read(&mut self, addr: u16) -> (data: u8) {
        reveal(BusState::can_read);
        reveal(BusState::read);
        if addr <= RAM_MIRRORS_END {
            let mirror_down_addr = addr % RAM_SIZE;
            self.cpu_vram[mirror_down_addr as usize]
        } else if addr <= PPU_REGISTERS_MIRRORS_END {
            let register = addr % 8;
            if register == 2 {
                self.ppu.read_status()
            } else if register == 4 {
                self.ppu.read_oam_data()
            } else {
                self.ppu.read_data()
            }
        } else if addr == JOYPAD1 {
            self.joypad1.read()
        } else if addr < PRG_ROM_START {
            // the audio registers, the second controller port, and what
            // nothing is mapped to
            0
        } else {
            self.read_prg_rom(addr)
        }
    }

    fn mem_write(&mut self, addr: u16, data: u8) {
        reveal(BusState::can_read);
        reveal(BusState::read);
        reveal(BusState::can_write);
        reveal(BusState::write);
        if addr <= RAM_MIRRORS_END {
            let mirror_down_addr = addr % RAM_SIZE;
            self.cpu_vram[mirror_down_addr as usize] = data;
        } else if addr <= PPU_REGISTERS_MIRRORS_END {
            let register = addr % 8;
            if register == 0 {
                self.ppu.write_to_ctrl(data);
            } else if register == 1 {
                self.ppu.write_to_mask(data);
            } else if register == 3 {
                self.ppu.write_to_oam_addr(data);
            } else if register == 4 {
                self.ppu.write_to_oam_data(data);
            } else if register == 5 {
                self.ppu.write_to_scroll(data);
            } else if register == 6 {
                self.ppu.write_to_ppu_addr(data);
            } else {
                self.ppu.write_to_data(data);
            }
        } else if addr == OAM_DMA {
            let mut buffer: [u8; 256] = [0; 256];
            let hi: u16 = (data as u16) * 256;
            let mut i: u16 = 0;
            while i < 256
                invariant
                    i <= 256,
                    hi == data * 256,
                    data < 0x20 || data > 0x40,
                    self@.wf(),
                    self@ == old(self)@,
                    old(self)@.can_read_page(data),
                    forall|k: int| 0 <= k < i ==> buffer@[k] == old(self)@.dma_page(data)[k],
                decreases 256 - i,
            {
                proof {
                    reveal(BusState::can_read);
                    reveal(BusState::read);
                }
                assert(self@.can_read((data * 256 + i) as u16));
                let value = self.mem_read(hi + i);
                buffer[i as usize] = value;
                i += 1;
            }
            assert(buffer@ =~= old(self)@.dma_page(data));
            self.ppu.write_oam_dma(&buffer);
        } else if addr <= 0x4003 {
            self.apu.write_square1(addr, data);
        } else if addr <= 0x4007 {
            self.apu.write_square2(addr, data);
        } else if addr <= 0x400B {
            self.apu.write_triangle(addr, data);
        } else if addr <= 0x400F {
            self.apu.write_noise(addr, data);
        } else if addr == JOYPAD1 {
            self.joypad1.write(data);
        } else {
            // the rest of the audio unit, the second controller port, and
            // what nothing is mapped to
        }
    }
}

} // verus!
