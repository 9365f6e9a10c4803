//! The graphics timing unit: video memory, its register file, and the
//! scanline and dot counters that pace a frame.

pub mod registers;
pub mod timing;

use vstd::prelude::*;
use crate::cartridge::Mirroring;
use crate::ppu::registers::{
    AddrRegister,
    ControlRegister,
    MaskRegister,
    ScrollRegister,
    StatusRegister,
};

verus! {

/// Dots in one scanline.
pub const DOTS_PER_SCANLINE: usize = 341;

/// Scanlines in one frame.
pub const SCANLINES_PER_FRAME: u16 = 262;

/// First scanline of the vertical blank.
pub const VBLANK_SCANLINE: u16 = 241;

/// The pre-render scanline, last of the frame.
pub const PRE_RENDER_SCANLINE: u16 = 261;

/// Size in bytes of the pattern (chr) space at the bottom of video memory.
pub const CHR_SPACE: u16 = 0x2000;

/// First address of the palette space.
pub const PALETTE_START: u16 = 0x3f00;

/// The tile, or pair of tiles, that a sprite shows.
#[derive(Clone, Copy, Debug, PartialEq, Eq, Structural)]
pub enum TileId {
    Normal { id: u8 },
    Large { bank: u16, id: u8 },
}

impl TileId {
    /// The tile named by byte 1 of a sprite's entry: in 8x16 mode bit 0
    /// selects the pattern bank and the other bits the upper tile.
    pub open spec fn spec_new(is_large: bool, src: u8) -> TileId {
        if !is_large {
            TileId::Normal { id: src }
        } else {
            TileId::Large {
                bank: if (src & 0x01) == 0x01 {
                    0x1000
                } else {
                    0x0000
                },
                id: src & 0xfe,
            }
        }
    }

    pub fn new(is_large: bool, src: u8) -> (r: Self)
        ensures
            r == Self::spec_new(is_large, src),
    {
        if !is_large {
            TileId::Normal { id: src }
        } else {
            TileId::Large {
                bank: (if (src & 0x01) == 0x01 {
                    0x1000
                } else {
                    0x0000
                }),
                id: src & 0xfe,
            }
        }
    }
}

/// The attribute byte of a sprite, taken apart.
#[derive(Clone, Copy, Debug, PartialEq, Eq, Structural)]
pub struct SpriteAttr {
    pub palette: u8,
    pub priority: u8,
    pub is_flip_horizonal: bool,
    pub is_flip_vertical: bool,
}

impl SpriteAttr {
    pub open spec fn spec_new(src: u8) -> SpriteAttr {
        SpriteAttr {
            palette: src & 0b0000_0011,
            priority: (src >> 5) & 0b0000_0001,
            is_flip_horizonal: src & 0b0100_0000 != 0x00,
            is_flip_vertical: src & 0b1000_0000 != 0x00,
        }
    }

    pub fn new(src: u8) -> (r: Self)
        ensures
            r == Self::spec_new(src),
    {
        SpriteAttr {
            palette: src & 0b0000_0011,
            priority: (src >> 5) & 0b0000_0001,
            is_flip_horizonal: src & 0b0100_0000 != 0x00,
            is_flip_vertical: src & 0b1000_0000 != 0x00,
        }
    }
}

/// One entry of object-attribute memory.
#[derive(Clone, Copy, Debug, PartialEq, Eq, Structural)]
pub struct Sprite {
    pub y: u8,
    pub tile_id: TileId,
    pub attr: SpriteAttr,
    pub x: u8,
}

impl Sprite {
    /// The sprite described by the four bytes of an entry: vertical
    /// position, tile, attributes, horizontal position.
    pub open spec fn spec_new(is_large: bool, oam: Seq<u8>) -> Sprite {
        Sprite {
            y: oam[0],
            tile_id: TileId::spec_new(is_large, oam[1]),
            attr: SpriteAttr::spec_new(oam[2]),
            x: oam[3],
        }
    }

    pub fn new(is_large: bool, oam: [u8; 4]) -> (r: Self)
        ensures
            r == Self::spec_new(is_large, oam@),
    {
        Sprite {
            y: oam[0],
            tile_id: TileId::new(is_large, oam[1]),
            attr: SpriteAttr::new(oam[2]),
            x: oam[3],
        }
    }
}

/// The region of the frame that a scanline belongs to. The flag of
/// `VerticalBlanking` marks the first line of the blank.
#[derive(Clone, Copy, Debug, PartialEq, Eq, Structural)]
pub enum LineStatus {
    Visible,
    PostRender,
    VerticalBlanking(bool),
    PreRender,
}

impl LineStatus {
    pub open spec fn spec_from(line: u16) -> LineStatus {
        if line < 240 {
            LineStatus::Visible
        } else if line == 240 {
            LineStatus::PostRender
        } else if line < PRE_RENDER_SCANLINE {
            LineStatus::VerticalBlanking(line == VBLANK_SCANLINE)
        } else {
            LineStatus::PreRender
        }
    }

    pub fn from(line: u16) -> (r: LineStatus)
        requires
            line < SCANLINES_PER_FRAME,
        ensures
            r == Self::spec_from(line),
    {
        if line < 240 {
            LineStatus::Visible
        } else if line == 240 {
            LineStatus::PostRender
        } else if line < PRE_RENDER_SCANLINE {
            LineStatus::VerticalBlanking(line == VBLANK_SCANLINE)
        } else {
            LineStatus::PreRender
        }
    }
}

/// Index of a nametable address in the console's 2 KB of video RAM.
///
/// The four logical tables of 0x400 bytes start at 0x2000 and repeat from
/// 0x3000. Under vertical mirroring tables 2 and 3 fall on 0 and 1; under
/// horizontal mirroring table 1 falls on 0, and tables 2 and 3 on the
/// second kilobyte. Four-screen cartridges keep the four tables apart.
pub open spec fn spec_mirror_vram_addr(mirroring: Mirroring, addr: u16) -> int {
    let vram_index = (addr - 0x2000) % 0x1000;
    let name_table = vram_index / 0x400;
    match mirroring {
        Mirroring::VERTICAL => if name_table >= 2 {
            vram_index - 0x800
        } else {
            vram_index
        },
        Mirroring::HORIZONTAL => if name_table == 1 || name_table == 2 {
            vram_index - 0x400
        } else if name_table == 3 {
            vram_index - 0x800
        } else {
            vram_index
        },
        Mirroring::FOUR_SCREEN => vram_index,
    }
}

/// Index of a palette address in the palette table: the table repeats every
/// 32 bytes, and 0x3f10, 0x3f14, 0x3f18 and 0x3f1c fall on the entries 16
/// below them.
pub open spec fn spec_palette_index(addr: u16) -> int {
    if addr == 0x3f10 || addr == 0x3f14 || addr == 0x3f18 || addr == 0x3f1c {
        addr - 0x3f10
    } else {
        (addr - PALETTE_START) % 32
    }
}

/// The state of the graphics unit as mathematical values.
#[verifier::ext_equal]
pub struct PpuState {
    pub chr: Seq<u8>,
    pub is_chr_ram: bool,
    pub mirroring: Mirroring,
    pub palette: Seq<u8>,
    pub ctrl: ControlRegister,
    pub mask: MaskRegister,
    pub status: StatusRegister,
    pub oam_addr: u8,
    pub oam: Seq<u8>,
    pub scroll: ScrollRegister,
    pub addr: AddrRegister,
    pub vram: Seq<u8>,
    pub data_buf: u8,
    pub scanline: u16,
    pub dot: usize,
    pub nmi: Option<u8>,
}

impl PpuState {
    /// The memories have their sizes, the video address and both counters
    /// are in range.
    pub open spec fn wf(self) -> bool {
        &&& self.palette.len() == 32
        &&& self.oam.len() == 256
        &&& self.vram.len() == 2048
        &&& self.addr.wf()
        &&& self.scanline < SCANLINES_PER_FRAME
        &&& self.dot < DOTS_PER_SCANLINE
    }

    /// The state of a unit just built around the given pattern memory.
    pub open spec fn initial(chr: Seq<u8>, is_chr_ram: bool, mirroring: Mirroring) -> PpuState {
        PpuState {
            chr,
            is_chr_ram,
            mirroring,
            palette: Seq::new(32, |i: int| 0u8),
            ctrl: ControlRegister { bits: 0 },
            mask: MaskRegister { bits: 0 },
            status: StatusRegister { bits: 0 },
            oam_addr: 0,
            oam: Seq::new(256, |i: int| 0u8),
            scroll: ScrollRegister { scroll_x: 0, scroll_y: 0, latch: false },
            addr: AddrRegister { hi: 0, lo: 0, hi_ptr: true },
            vram: Seq::new(2048, |i: int| 0u8),
            data_buf: 0,
            scanline: 0,
            dot: 0,
            nmi: None,
        }
    }

    /// The address that the next access to the Data register uses.
    pub open spec fn data_addr(self) -> u16 {
        self.addr.spec_get()
    }

    /// The next access to the Data register, if it goes to a nametable,
    /// falls on a cell of the console's 2 KB: with a four-screen cartridge
    /// it may point past them.
    pub open spec fn nametable_access_ok(self) -> bool {
        CHR_SPACE <= self.data_addr() < PALETTE_START ==> spec_mirror_vram_addr(
            self.mirroring,
            self.data_addr(),
        ) < 2048
    }

    /// The next read of the Data register falls on a memory cell that
    /// exists.
    pub open spec fn data_read_ok(self) -> bool {
        &&& self.nametable_access_ok()
        &&& self.data_addr() < CHR_SPACE ==> self.data_addr() < self.chr.len()
    }

    /// The next write to the Data register falls on a memory cell that
    /// exists, or is dropped because pattern memory is ROM.
    pub open spec fn data_write_ok(self) -> bool {
        &&& self.nametable_access_ok()
        &&& self.data_addr() < CHR_SPACE && self.is_chr_ram ==> self.data_addr() < self.chr.len()
    }

    pub open spec fn increment_vram_addr(self) -> PpuState {
        PpuState { addr: self.addr.spec_increment(self.ctrl.spec_vram_addr_increment()), ..self }
    }

    /// Sprite 0 starts on the current scanline, at or before dot `cycle`,
    /// and sprites are shown.
    pub open spec fn is_sprite_0_hit(self, cycle: int) -> bool {
        self.oam[0] == self.scanline && self.oam[3] <= cycle && self.mask.spec_show_sprites()
    }

    /// What entering the current scanline does. The first line of the
    /// vertical blank raises the blank flag, drops the sprite-0 hit and,
    /// when Control asks for it, raises the pending interrupt. The
    /// pre-render line drops all three.
    pub open spec fn enter_line(self) -> PpuState {
        match LineStatus::spec_from(self.scanline) {
            LineStatus::Visible => self,
            LineStatus::PostRender => self,
            LineStatus::VerticalBlanking(is_first) => {
                if is_first {
                    PpuState {
                        status: self.status.spec_set_vblank_status(true).spec_set_sprite_zero_hit(
                            false,
                        ),
                        nmi: if self.ctrl.spec_generate_vblank_nmi() {
                            Some(1u8)
                        } else {
                            self.nmi
                        },
                        ..self
                    }
                } else {
                    self
                }
            },
            LineStatus::PreRender => PpuState {
                nmi: None,
                status: self.status.spec_set_sprite_zero_hit(false).spec_set_vblank_status(false),
                ..self
            },
        }
    }

    /// The state one dot later. Within a line only the dot counter moves.
    /// At the end of a line, a visible line that sprite 0 starts on records
    /// the hit; then the dot counter wraps, the scanline counter advances
    /// (wrapping after the pre-render line), and the new line is entered.
    pub open spec fn tick(self) -> PpuState {
        if self.dot + 1 < DOTS_PER_SCANLINE {
            PpuState { dot: (self.dot + 1) as usize, ..self }
        } else {
            let hit = self.scanline < 240 && self.is_sprite_0_hit(self.dot + 1);
            PpuState {
                status: if hit {
                    self.status.spec_set_sprite_zero_hit(true)
                } else {
                    self.status
                },
                dot: (self.dot + 1 - DOTS_PER_SCANLINE) as usize,
                scanline: ((self.scanline + 1) % (SCANLINES_PER_FRAME as int)) as u16,
                ..self
            }.enter_line()
        }
    }

    /// The state `n` dots later.
    pub open spec fn ticks(self, n: nat) -> PpuState
        decreases n,
    {
        if n == 0 {
            self
        } else {
            self.tick().ticks((n - 1) as nat)
        }
    }

    /// The pending interrupt, and the state once it has been taken.
    pub open spec fn poll_nmi_interrupt(self) -> (Option<u8>, PpuState) {
        (self.nmi, PpuState { nmi: None, ..self })
    }

    /// A write to Control. Switching interrupt generation on during the
    /// vertical blank raises the pending interrupt at once.
    pub open spec fn write_to_ctrl(self, value: u8) -> PpuState {
        let ctrl = ControlRegister { bits: value };
        PpuState {
            ctrl,
            nmi: if !self.ctrl.spec_generate_vblank_nmi() && ctrl.spec_generate_vblank_nmi()
                && self.status.spec_is_in_vblank() {
                Some(1u8)
            } else {
                self.nmi
            },
            ..self
        }
    }

    pub open spec fn write_to_mask(self, value: u8) -> PpuState {
        PpuState { mask: MaskRegister { bits: value }, ..self }
    }

    /// A read of Status: the value read is the register as it stood; the
    /// read drops the blank flag and rewinds the write latches of Addr and
    /// Scroll.
    pub open spec fn read_status(self) -> (u8, PpuState) {
        (
            self.status.bits,
            PpuState {
                status: self.status.spec_set_vblank_status(false),
                addr: self.addr.spec_reset_latch(),
                scroll: self.scroll.spec_reset_latch(),
                ..self
            },
        )
    }

    pub open spec fn write_to_oam_addr(self, value: u8) -> PpuState {
        PpuState { oam_addr: value, ..self }
    }

    pub open spec fn write_to_oam_data(self, value: u8) -> PpuState {
        PpuState {
            oam: self.oam.update(self.oam_addr as int, value),
            oam_addr: self.oam_addr.wrapping_add(1),
            ..self
        }
    }

    pub open spec fn read_oam_data(self) -> u8 {
        self.oam[self.oam_addr as int]
    }

    pub open spec fn write_to_scroll(self, value: u8) -> PpuState {
        PpuState { scroll: self.scroll.spec_write(value), ..self }
    }

    pub open spec fn write_to_ppu_addr(self, value: u8) -> PpuState {
        PpuState { addr: self.addr.spec_update(value), ..self }
    }

    /// A write to Data: the byte goes to the cell that the video address
    /// names (pattern memory only when it is RAM), and the address moves on.
    pub open spec fn write_to_data(self, value: u8) -> PpuState {
        let addr = self.data_addr();
        let written = if addr < CHR_SPACE {
            if self.is_chr_ram {
                PpuState { chr: self.chr.update(addr as int, value), ..self }
            } else {
                self
            }
        } else if addr < PALETTE_START {
            PpuState {
                vram: self.vram.update(spec_mirror_vram_addr(self.mirroring, addr), value),
                ..self
            }
        } else {
            PpuState { palette: self.palette.update(spec_palette_index(addr), value), ..self }
        };
        written.increment_vram_addr()
    }

    /// A read of Data. Below the palette the read returns the byte buffered
    /// by the read before it and buffers the addressed cell; a palette read
    /// returns the addressed entry at once. Either way the address moves on.
    pub open spec fn read_data(self) -> (u8, PpuState) {
        let addr = self.data_addr();
        let moved = self.increment_vram_addr();
        if addr < CHR_SPACE {
            (self.data_buf, PpuState { data_buf: self.chr[addr as int], ..moved })
        } else if addr < PALETTE_START {
            (
                self.data_buf,
                PpuState {
                    data_buf: self.vram[spec_mirror_vram_addr(self.mirroring, addr)],
                    ..moved
                },
            )
        } else {
            (self.palette[spec_palette_index(addr)], moved)
        }
    }

    /// A bulk load of object-attribute memory: byte `i` of the page lands
    /// `i` cells after the current OAM address, wrapping at the end, and the
    /// address comes back to where it was.
    pub open spec fn write_oam_dma(self, value: Seq<u8>) -> PpuState {
        PpuState {
            oam: Seq::new(256, |j: int| value[(j - self.oam_addr) % 256]),
            ..self
        }
    }
}

pub struct NesPPU {
    pub chr_rom: Vec<u8>,
    pub is_chr_ram: bool,
    pub mirroring: Mirroring,
    pub palette_table: [u8; 32],
    pub ctrl: ControlRegister,
    pub mask: MaskRegister,
    pub status: StatusRegister,
    pub oam_addr: u8,
    pub oam_data: [u8; 256],
    pub scroll: ScrollRegister,
    pub addr: AddrRegister,
    pub vram: [u8; 2048],
    pub internal_data_buf: u8,
    pub scanline: u16,
    pub cycles: usize,
    pub nmi_interrupt: Option<u8>,
}

impl View for NesPPU {
    type V = PpuState;

    open spec fn view(&self) -> PpuState {
        PpuState {
            chr: self.chr_rom@,
            is_chr_ram: self.is_chr_ram,
            mirroring: self.mirroring,
            palette: self.palette_table@,
            ctrl: self.ctrl,
            mask: self.mask,
            status: self.status,
            oam_addr: self.oam_addr,
            oam: self.oam_data@,
            scroll: self.scroll,
            addr: self.addr,
            vram: self.vram@,
            data_buf: self.internal_data_buf,
            scanline: self.scanline,
            dot: self.cycles,
            nmi: self.nmi_interrupt,
        }
    }
}

/// The register interface that the bus drives.
pub trait PPU: View<V = PpuState> + Sized {
    fn write_to_ctrl(&mut self, value: u8)
        requires
            old(self)@.wf(),
        ensures
            final(self)@ == old(self)@.write_to_ctrl(value),
            final(self)@.wf(),
    ;

    fn write_to_mask(&mut self, value: u8)
        requires
            old(self)@.wf(),
        ensures
            final(self)@ == old(self)@.write_to_mask(value),
            final(self)@.wf(),
    ;

    fn read_status(&mut self) -> (data: u8)
        requires
            old(self)@.wf(),
        ensures
            (data, final(self)@) == old(self)@.read_status(),
            final(self)@.wf(),
    ;

    fn write_to_oam_addr(&mut self, value: u8)
        requires
            old(self)@.wf(),
        ensures
            final(self)@ == old(self)@.write_to_oam_addr(value),
            final(self)@.wf(),
    ;

    fn write_to_oam_data(&mut self, value: u8)
        requires
            old(self)@.wf(),
        ensures
            final(self)@ == old(self)@.write_to_oam_data(value),
            final(self)@.wf(),
    ;

    fn read_oam_data(&self) -> (data: u8)
        requires
            self@.wf(),
        ensures
            data == self@.read_oam_data(),
    ;

    fn write_to_scroll(&mut self, value: u8)
        requires
            old(self)@.wf(),
        ensures
            final(self)@ == old(self)@.write_to_scroll(value),
            final(self)@.wf(),
    ;

    fn write_to_ppu_addr(&mut self, value: u8)
        requires
            old(self)@.wf(),
        ensures
            final(self)@ == old(self)@.write_to_ppu_addr(value),
            final(self)@.wf(),
    ;

    fn write_to_data(&mut self, value: u8)
        requires
            old(self)@.wf(),
            old(self)@.data_write_ok(),
        ensures
            final(self)@ == old(self)@.write_to_data(value),
            final(self)@.wf(),
    ;

    fn read_data(&mut self) -> (data: u8)
        requires
            old(self)@.wf(),
            old(self)@.data_read_ok(),
        ensures
            (data, final(self)@) == old(self)@.read_data(),
            final(self)@.wf(),
    ;

    fn write_oam_dma(&mut self, value: &[u8; 256])
        requires
            old(self)@.wf(),
        ensures
            final(self)@ == old(self)@.write_oam_dma(value@),
            final(self)@.wf(),
    ;
}

impl NesPPU {
    /// A graphics unit at the first dot of a frame, with cleared memories
    /// and registers, around the cartridge's pattern memory.
    pub fn new(chr_rom: Vec<u8>, is_chr_ram: bool, mirroring: Mirroring) -> (r: Self)
        ensures
            r@ == PpuState::initial(chr_rom@, is_chr_ram, mirroring),
            r@.wf(),
    {
        NesPPU {
            chr_rom,
            is_chr_ram,
            mirroring,
            palette_table: [0; 32],
            ctrl: ControlRegister::new(),
            mask: MaskRegister::new(),
            status: StatusRegister::new(),
            oam_addr: 0,
            oam_data: [0; 256],
            scroll: ScrollRegister::new(),
            addr: AddrRegister::new(),
            vram: [0; 2048],
            internal_data_buf: 0,
            scanline: 0,
            cycles: 0,
            nmi_interrupt: None,
        }
    }

    /// Tells whether the video address and both counters are in range.
    pub fn well_formed(&self) -> (r: bool)
        ensures
            r == self@.wf(),
    {
        self.addr.well_formed() && self.scanline < SCANLINES_PER_FRAME && self.cycles
            < DOTS_PER_SCANLINE
    }

    fn increment_vram_addr(&mut self)
        requires
            old(self)@.wf(),
        ensures
            final(self)@ == old(self)@.increment_vram_addr(),
            final(self)@.wf(),
    {
        self.addr.increment(self.ctrl.vram_addr_increment());
    }

    // Horizontal:
    //   [ A ] [ a ]
    //   [ B ] [ b ]
    // Vertical:
    //   [ A ] [ B ]
    //   [ a ] [ b ]
    /// Folds a nametable address onto the console's video RAM.
    pub fn mirror_vram_addr(&self, addr: u16) -> (r: u16)
        requires
            0x2000 <= addr <= 0x3fff,
        ensures
            r == spec_mirror_vram_addr(self.mirroring, addr),
            r < 0x1000,
            !(self.mirroring is FOUR_SCREEN) ==> r < 2048,
    {
        let mirrored_vram = addr & 0b10111111111111;  // mirror down 0x3000-0x3eff to 0x2000 - 0x2eff
        assert(0x2000 <= addr <= 0x3fff ==> addr & 0b10111111111111 == 0x2000 + (addr - 0x2000)
            % 0x1000) by (bit_vector);
        let vram_index = mirrored_vram - 0x2000;  // to vram vector
        let name_table = vram_index / 0x400;  // to the name table index
        match self.mirroring {
            Mirroring::VERTICAL => if name_table == 2 || name_table == 3 {
                vram_index - 0x800
            } else {
                vram_index
            },
            Mirroring::HORIZONTAL => if name_table == 1 || name_table == 2 {
                vram_index - 0x400
            } else if name_table == 3 {
                vram_index - 0x800
            } else {
                vram_index
            },
            Mirroring::FOUR_SCREEN => vram_index,
        }
    }

    /// Folds a palette address onto the palette table.
    fn palette_index(addr: u16) -> (r: usize)
        requires
            PALETTE_START <= addr,
        ensures
            r == spec_palette_index(addr),
            r < 32,
    {
        if addr == 0x3f10 || addr == 0x3f14 || addr == 0x3f18 || addr == 0x3f1c {
            (addr - 0x3f10) as usize
        } else {
            ((addr - PALETTE_START) as usize) % 32
        }
    }

    fn is_sprite_0_hit(&self, cycle: usize) -> (r: bool)
        ensures
            r == self@.is_sprite_0_hit(cycle as int),
    {
        let y = self.oam_data[0] as usize;
        let x = self.oam_data[3] as usize;
        (y == self.scanline as usize) && x <= cycle && self.mask.show_sprites()
    }

    /// Advances the unit by one dot.
    pub fn tick(&mut self)
        requires
            old(self)@.wf(),
        ensures
            final(self)@ == old(self)@.tick(),
            final(self)@.wf(),
    {
        self.cycles += 1;
        if self.cycles >= DOTS_PER_SCANLINE {
            if self.scanline < 240 && self.is_sprite_0_hit(self.cycles) {
                self.status.set_sprite_zero_hit(true)
            }
            self.cycles = self.cycles - DOTS_PER_SCANLINE;
            self.scanline = (self.scanline + 1) % SCANLINES_PER_FRAME;

            match LineStatus::from(self.scanline) {
                LineStatus::Visible => {},
                LineStatus::PostRender => {},
                LineStatus::VerticalBlanking(is_first) => {
                    if is_first {
                        self.status.set_vblank_status(true);
                        self.status.set_sprite_zero_hit(false);
                        if self.ctrl.generate_vblank_nmi() {
                            self.nmi_interrupt = Some(1);
                        }
                    }
                },
                LineStatus::PreRender => {
                    self.nmi_interrupt = None;
                    self.status.set_sprite_zero_hit(false);
                    self.status.reset_vblank_status();
                },
            }
        }
    }

    /// Tells whether the next read of the Data register falls on a memory
    /// cell that exists.
    pub fn data_read_ok(&self) -> (r: bool)
        requires
            self@.wf(),
        ensures
            r == self@.data_read_ok(),
    {
        let addr = self.addr.get();
        if addr < CHR_SPACE {
            (addr as usize) < self.chr_rom.len()
        } else if addr < PALETTE_START {
            self.mirror_vram_addr(addr) < 2048
        } else {
            true
        }
    }

    /// Tells whether the next write to the Data register falls on a memory
    /// cell that exists, or is dropped.
    pub fn data_write_ok(&self) -> (r: bool)
        requires
            self@.wf(),
        ensures
            r == self@.data_write_ok(),
    {
        let addr = self.addr.get();
        if addr < CHR_SPACE {
            !self.is_chr_ram || (addr as usize) < self.chr_rom.len()
        } else if addr < PALETTE_START {
            self.mirror_vram_addr(addr) < 2048
        } else {
            true
        }
    }

    /// Takes the pending interrupt, if there is one.
    pub fn poll_nmi_interrupt(&mut self) -> (r: Option<u8>)
        ensures
            (r, final(self)@) == old(self)@.poll_nmi_interrupt(),
    {
        self.nmi_interrupt.take()
    }
}

impl PPU for NesPPU {
    fn write_to_ctrl(&mut self, value: u8) {
        let before_nmi_status = self.ctrl.generate_vblank_nmi();
        self.ctrl.update(value);
        if !before_nmi_status && self.ctrl.generate_vblank_nmi() && self.status.is_in_vblank() {
            self.nmi_interrupt = Some(1);
        }
    }

    fn write_to_mask(&mut self, value: u8) {
        self.mask.update(value);
    }

    fn read_status(&mut self) -> (data: u8) {
        let data = self.status.snapshot();
        self.status.reset_vblank_status();
        self.addr.reset_latch();
        self.scroll.reset_latch();
        data
    }

    fn write_to_oam_addr(&mut self, value: u8) {
        self.oam_addr = value;
    }

    fn write_to_oam_data(&mut self, value: u8) {
        self.oam_data[self.oam_addr as usize] = value;
        self.oam_addr = self.oam_addr.wrapping_add(1);
    }

    fn read_oam_data(&self) -> (data: u8) {
        self.oam_data[self.oam_addr as usize]
    }

    fn write_to_scroll(&mut self, value: u8) {
        self.scroll.write(value);
    }

    fn write_to_ppu_addr(&mut self, value: u8) {
        self.addr.update(value);
    }

    fn write_to_data(&mut self, value: u8) {
        let addr = self.addr.get();
        if addr < CHR_SPACE {
            if self.is_chr_ram {
                self.chr_rom[addr as usize] = value;
            }
        } else if addr < PALETTE_START {
            let index = self.mirror_vram_addr(addr);
            self.vram[index as usize] = value;
        } else {
            let index = Self::palette_index(addr);
            self.palette_table[index] = value;
        }
        self.increment_vram_addr();
    }

    fn read_data(&mut self) -> (data: u8) {
        let addr = self.addr.get();
        self.increment_vram_addr();

        if addr < CHR_SPACE {
            let result = self.internal_data_buf;
            self.internal_data_buf = self.chr_rom[addr as usize];
            result
        } else if addr < PALETTE_START {
            let result = self.internal_data_buf;
            let index = self.mirror_vram_addr(addr);
            self.internal_data_buf = self.vram[index as usize];
            result
        } else {
            //Addresses $3F10/$3F14/$3F18/$3F1C are mirrors of $3F00/$3F04/$3F08/$3F0C
            self.palette_table[Self::palette_index(addr)]
        }
    }

    fn write_oam_dma(&mut self, value: &[u8; 256]) {
        let ghost start = self.oam_addr;
        let ghost before = self.oam_data@;
        let mut i: usize = 0;
        while i < 256
            invariant
                i <= 256,
                self.oam_addr == (start + i) % 256,
                self.oam_data@.len() == 256,
                forall|k: int| 0 <= k < i ==> self.oam_data@[(start + k) % 256] == value@[k],
                forall|j: int|
                    0 <= j < 256 && (j - start) % 256 >= i ==> self.oam_data@[j] == before[j],
                self@ == (PpuState { oam: self.oam_data@, oam_addr: self.oam_addr, ..old(self)@ }),
            decreases 256 - i,
        {
            self.oam_data[self.oam_addr as usize] = value[i];
            self.oam_addr = self.oam_addr.wrapping_add(1);
            i += 1;
        }
        assert forall|j: int| 0 <= j < 256 implies self.oam_data@[j] == value@[(j - start) % 256] by {
            let k = (j - start) % 256;
            assert((start + k) % 256 == j);
        }
    }
}

} // verus!

