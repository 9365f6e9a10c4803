use nes_emulator::cartridge::Mirroring;
use nes_emulator::ppu::registers::{
    AddrRegister, Color, ControlRegister, MaskRegister, ScrollRegister, StatusRegister,
};
use nes_emulator::ppu::{LineStatus, NesPPU, Sprite, SpriteAttr, TileId, PPU};

fn ppu_with(mirroring: Mirroring, is_chr_ram: bool) -> NesPPU {
    NesPPU::new(vec![0u8; 0x2000], is_chr_ram, mirroring)
}

fn point_at(ppu: &mut NesPPU, addr: u16) {
    ppu.read_status();
    ppu.write_to_ppu_addr((addr >> 8) as u8);
    ppu.write_to_ppu_addr((addr & 0xFF) as u8);
}

#[test]
fn ppu_new_starts_at_the_first_dot() {
    let ppu = ppu_with(Mirroring::HORIZONTAL, false);
    assert_eq!(ppu.scanline, 0);
    assert_eq!(ppu.cycles, 0);
    assert_eq!(ppu.nmi_interrupt, None);
    assert_eq!(ppu.oam_data, [0u8; 256]);
    assert_eq!(ppu.vram, [0u8; 2048]);
    assert_eq!(ppu.palette_table, [0u8; 32]);
    assert_eq!(ppu.status.bits, 0);
    assert_eq!(ppu.addr.get(), 0);
}

#[test]
fn ppu_tick_moves_the_dot_and_wraps_the_line() {
    let mut ppu = ppu_with(Mirroring::HORIZONTAL, false);
    for _ in 0..340 {
        ppu.tick();
    }
    assert_eq!((ppu.scanline, ppu.cycles), (0, 340));
    ppu.tick();
    assert_eq!((ppu.scanline, ppu.cycles), (1, 0));
}

#[test]
fn ppu_frame_lasts_341_times_262_dots() {
    let mut ppu = ppu_with(Mirroring::HORIZONTAL, false);
    for k in 1..(341 * 262) {
        ppu.tick();
        assert!(!(ppu.scanline == 0 && ppu.cycles == 0), "back at the start after {} dots", k);
        assert!(ppu.scanline < 262);
        assert!(ppu.cycles < 341);
    }
    ppu.tick();
    assert_eq!((ppu.scanline, ppu.cycles), (0, 0));
}

#[test]
fn ppu_interrupt_rises_once_per_frame_when_enabled() {
    let mut ppu = ppu_with(Mirroring::HORIZONTAL, false);
    ppu.write_to_ctrl(0x80);
    let mut rises = 0;
    for k in 1..=(341 * 262) {
        let before = ppu.nmi_interrupt.is_some();
        ppu.tick();
        let after = ppu.nmi_interrupt.is_some();
        if !before && after {
            rises += 1;
            assert_eq!(k, 341 * 241);
            assert_eq!((ppu.scanline, ppu.cycles), (241, 0));
        }
        assert_eq!(after, (341 * 241..341 * 261).contains(&k));
    }
    assert_eq!(rises, 1);
    assert_eq!(ppu.nmi_interrupt, None);
}

#[test]
fn ppu_interrupt_stays_down_when_disabled() {
    let mut ppu = ppu_with(Mirroring::HORIZONTAL, false);
    for _ in 0..(341 * 262) {
        ppu.tick();
        assert_eq!(ppu.nmi_interrupt, None);
    }
}

#[test]
fn ppu_vblank_flag_follows_the_scanline() {
    let mut ppu = ppu_with(Mirroring::HORIZONTAL, false);
    for _ in 0..(341 * 241 - 1) {
        ppu.tick();
    }
    assert!(!ppu.status.is_in_vblank());
    ppu.tick();
    assert!(ppu.status.is_in_vblank());
    for _ in 0..(341 * 20 - 1) {
        ppu.tick();
    }
    assert!(ppu.status.is_in_vblank());
    ppu.tick();
    assert_eq!(ppu.scanline, 261);
    assert!(!ppu.status.is_in_vblank());
}

#[test]
fn ppu_sprite_zero_hit_is_recorded_at_the_end_of_its_line() {
    let mut ppu = ppu_with(Mirroring::HORIZONTAL, false);
    ppu.write_to_mask(0b0001_0000);
    ppu.oam_data[0] = 2;
    ppu.oam_data[3] = 100;
    for _ in 0..(341 * 2 + 340) {
        ppu.tick();
    }
    assert_eq!((ppu.scanline, ppu.cycles), (2, 340));
    assert!(!ppu.status.is_sprite_zero_hit());
    ppu.tick();
    assert!(ppu.status.is_sprite_zero_hit());
    // sticky until the vertical blank
    for _ in 0..(341 * 237) {
        ppu.tick();
    }
    assert_eq!(ppu.scanline, 240);
    assert!(ppu.status.is_sprite_zero_hit());
    for _ in 0..341 {
        ppu.tick();
    }
    assert_eq!(ppu.scanline, 241);
    assert!(!ppu.status.is_sprite_zero_hit());
}

#[test]
fn ppu_sprite_zero_hit_needs_sprites_shown() {
    let mut ppu = ppu_with(Mirroring::HORIZONTAL, false);
    ppu.oam_data[0] = 0;
    for _ in 0..341 {
        ppu.tick();
    }
    assert!(!ppu.status.is_sprite_zero_hit());
}

#[test]
fn ppu_sprite_zero_hit_is_not_recorded_outside_the_visible_lines() {
    let mut ppu = ppu_with(Mirroring::HORIZONTAL, false);
    ppu.write_to_mask(0b0001_0000);
    ppu.oam_data[0] = 250;
    for _ in 0..(341 * 260) {
        ppu.tick();
        assert!(!ppu.status.is_sprite_zero_hit());
    }
}

#[test]
fn ppu_mirror_vram_addr_vertical() {
    let ppu = ppu_with(Mirroring::VERTICAL, false);
    assert_eq!(ppu.mirror_vram_addr(0x2000), 0x000);
    assert_eq!(ppu.mirror_vram_addr(0x2400), 0x400);
    assert_eq!(ppu.mirror_vram_addr(0x2800), 0x000);
    assert_eq!(ppu.mirror_vram_addr(0x2C00), 0x400);
    assert_eq!(ppu.mirror_vram_addr(0x2C00), ppu.mirror_vram_addr(0x2400));
    assert_eq!(ppu.mirror_vram_addr(0x2FFF), 0x7FF);
    assert_eq!(ppu.mirror_vram_addr(0x3C05), 0x405);
}

#[test]
fn ppu_mirror_vram_addr_horizontal() {
    let ppu = ppu_with(Mirroring::HORIZONTAL, false);
    assert_eq!(ppu.mirror_vram_addr(0x2000), 0x000);
    assert_eq!(ppu.mirror_vram_addr(0x2400), 0x000);
    assert_eq!(ppu.mirror_vram_addr(0x2800), 0x400);
    assert_eq!(ppu.mirror_vram_addr(0x2C00), 0x400);
    assert_eq!(ppu.mirror_vram_addr(0x2C00), ppu.mirror_vram_addr(0x2800));
    assert_eq!(ppu.mirror_vram_addr(0x27FF), 0x3FF);
    assert_eq!(ppu.mirror_vram_addr(0x3EFF), 0x6FF);
}

#[test]
fn ppu_mirror_vram_addr_four_screen() {
    let ppu = ppu_with(Mirroring::FOUR_SCREEN, false);
    assert_eq!(ppu.mirror_vram_addr(0x2000), 0x000);
    assert_eq!(ppu.mirror_vram_addr(0x2400), 0x400);
    assert_eq!(ppu.mirror_vram_addr(0x2800), 0x800);
    assert_eq!(ppu.mirror_vram_addr(0x2C00), 0xC00);
    assert_eq!(ppu.mirror_vram_addr(0x3C00), 0xC00);
}

#[test]
fn ppu_fourth_nametable_mirrors_cell_for_cell() {
    let vertical = ppu_with(Mirroring::VERTICAL, false);
    let horizontal = ppu_with(Mirroring::HORIZONTAL, false);
    for offset in 0..0x400u16 {
        assert_eq!(
            vertical.mirror_vram_addr(0x2C00 + offset),
            vertical.mirror_vram_addr(0x2400 + offset)
        );
        assert_eq!(
            horizontal.mirror_vram_addr(0x2C00 + offset),
            horizontal.mirror_vram_addr(0x2800 + offset)
        );
    }
}

#[test]
fn ppu_data_write_goes_to_vram_and_moves_the_address() {
    let mut ppu = ppu_with(Mirroring::HORIZONTAL, false);
    point_at(&mut ppu, 0x2305);
    ppu.write_to_data(0x66);
    assert_eq!(ppu.vram[0x0305], 0x66);
    assert_eq!(ppu.addr.get(), 0x2306);
}

#[test]
fn ppu_data_read_is_one_read_late() {
    let mut ppu = ppu_with(Mirroring::HORIZONTAL, false);
    ppu.vram[0x0305] = 0x66;
    ppu.vram[0x0306] = 0x77;
    point_at(&mut ppu, 0x2305);
    assert_eq!(ppu.read_data(), 0);
    assert_eq!(ppu.addr.get(), 0x2306);
    assert_eq!(ppu.read_data(), 0x66);
    assert_eq!(ppu.read_data(), 0x77);
}

#[test]
fn ppu_data_read_steps_by_32_when_control_says_so() {
    let mut ppu = ppu_with(Mirroring::HORIZONTAL, false);
    ppu.write_to_ctrl(0b100);
    ppu.vram[0x01ff] = 0x66;
    ppu.vram[0x01ff + 32] = 0x77;
    ppu.vram[0x01ff + 64] = 0x88;
    point_at(&mut ppu, 0x21ff);
    ppu.read_data();
    assert_eq!(ppu.read_data(), 0x66);
    assert_eq!(ppu.read_data(), 0x77);
    assert_eq!(ppu.read_data(), 0x88);
}

#[test]
fn ppu_data_access_uses_the_mirroring() {
    // Horizontal: https://wiki.nesdev.com/w/index.php/Mirroring
    //   [0x2000 A ] [0x2400 a ]
    //   [0x2800 B ] [0x2C00 b ]
    let mut ppu = ppu_with(Mirroring::HORIZONTAL, false);
    point_at(&mut ppu, 0x2405);
    ppu.write_to_data(0x66); // to a
    point_at(&mut ppu, 0x2805);
    ppu.write_to_data(0x77); // to B
    point_at(&mut ppu, 0x2005);
    ppu.read_data();
    assert_eq!(ppu.read_data(), 0x66); // from A
    point_at(&mut ppu, 0x2C05);
    ppu.read_data();
    assert_eq!(ppu.read_data(), 0x77); // from b

    let mut ppu = ppu_with(Mirroring::VERTICAL, false);
    point_at(&mut ppu, 0x2005);
    ppu.write_to_data(0x66); // to A
    point_at(&mut ppu, 0x2C05);
    ppu.write_to_data(0x77); // to b
    point_at(&mut ppu, 0x2805);
    ppu.read_data();
    assert_eq!(ppu.read_data(), 0x66); // from a
    point_at(&mut ppu, 0x2405);
    ppu.read_data();
    assert_eq!(ppu.read_data(), 0x77); // from B
}

#[test]
fn ppu_data_access_above_0x3000_falls_on_the_nametables() {
    let mut ppu = ppu_with(Mirroring::VERTICAL, false);
    point_at(&mut ppu, 0x3105);
    ppu.write_to_data(0x42);
    assert_eq!(ppu.vram[0x0105], 0x42);
    point_at(&mut ppu, 0x2105);
    ppu.read_data();
    assert_eq!(ppu.read_data(), 0x42);
}

#[test]
fn ppu_palette_is_read_at_once_and_mirrored() {
    let mut ppu = ppu_with(Mirroring::HORIZONTAL, false);
    point_at(&mut ppu, 0x3f10);
    ppu.write_to_data(0x21);
    assert_eq!(ppu.palette_table[0], 0x21);
    point_at(&mut ppu, 0x3f00);
    assert_eq!(ppu.read_data(), 0x21);
    point_at(&mut ppu, 0x3f14);
    ppu.write_to_data(0x22);
    assert_eq!(ppu.palette_table[4], 0x22);
    point_at(&mut ppu, 0x3f18);
    ppu.write_to_data(0x23);
    assert_eq!(ppu.palette_table[8], 0x23);
    point_at(&mut ppu, 0x3f1c);
    ppu.write_to_data(0x24);
    assert_eq!(ppu.palette_table[12], 0x24);
    point_at(&mut ppu, 0x3f11);
    ppu.write_to_data(0x25);
    assert_eq!(ppu.palette_table[0x11], 0x25);
    point_at(&mut ppu, 0x3f31);
    assert_eq!(ppu.read_data(), 0x25);
    point_at(&mut ppu, 0x3fff);
    ppu.write_to_data(0x26);
    assert_eq!(ppu.palette_table[31], 0x26);
    assert_eq!(ppu.addr.get(), 0x0000);
}

#[test]
fn ppu_palette_read_leaves_the_buffer_alone() {
    let mut ppu = ppu_with(Mirroring::HORIZONTAL, false);
    ppu.vram[0x0005] = 0x99;
    ppu.palette_table[1] = 0x31;
    point_at(&mut ppu, 0x2005);
    ppu.read_data();
    point_at(&mut ppu, 0x3f01);
    assert_eq!(ppu.read_data(), 0x31);
    point_at(&mut ppu, 0x2000);
    assert_eq!(ppu.read_data(), 0x99);
}

#[test]
fn ppu_chr_ram_can_be_written_and_chr_rom_cannot() {
    let mut ram = ppu_with(Mirroring::HORIZONTAL, true);
    point_at(&mut ram, 0x0123);
    ram.write_to_data(0x5A);
    assert_eq!(ram.chr_rom[0x0123], 0x5A);
    assert_eq!(ram.addr.get(), 0x0124);
    point_at(&mut ram, 0x0123);
    assert_eq!(ram.read_data(), 0);
    assert_eq!(ram.internal_data_buf, 0x5A);
    assert_eq!(ram.read_data(), 0x5A);

    let mut rom = ppu_with(Mirroring::HORIZONTAL, false);
    point_at(&mut rom, 0x0123);
    rom.write_to_data(0x5A);
    assert_eq!(rom.chr_rom[0x0123], 0);
    assert_eq!(rom.addr.get(), 0x0124);
}

#[test]
fn ppu_data_access_is_refused_where_no_cell_exists() {
    let mut four = ppu_with(Mirroring::FOUR_SCREEN, true);
    point_at(&mut four, 0x2400);
    assert!(four.data_read_ok());
    assert!(four.data_write_ok());
    point_at(&mut four, 0x2800);
    assert!(!four.data_read_ok());
    assert!(!four.data_write_ok());
    point_at(&mut four, 0x3f00);
    assert!(four.data_read_ok());

    let mut small = NesPPU::new(vec![0u8; 0x100], false, Mirroring::VERTICAL);
    point_at(&mut small, 0x00ff);
    assert!(small.data_read_ok());
    point_at(&mut small, 0x0100);
    assert!(!small.data_read_ok());
    assert!(small.data_write_ok());
    small.is_chr_ram = true;
    assert!(!small.data_write_ok());
}

#[test]
fn ppu_read_status_drops_vblank_and_rewinds_the_latches() {
    let mut ppu = ppu_with(Mirroring::HORIZONTAL, false);
    ppu.status.set_vblank_status(true);
    ppu.status.set_sprite_zero_hit(true);
    ppu.write_to_ppu_addr(0x21);
    ppu.write_to_scroll(0x11);
    assert!(!ppu.addr.hi_ptr);
    assert!(ppu.scroll.latch);
    assert_eq!(ppu.read_status(), 0b1100_0000);
    assert_eq!(ppu.status.snapshot(), 0b0100_0000);
    assert!(ppu.addr.hi_ptr);
    assert!(!ppu.scroll.latch);
    ppu.write_to_ppu_addr(0x23);
    ppu.write_to_ppu_addr(0x05);
    assert_eq!(ppu.addr.get(), 0x2305);
}

#[test]
fn ppu_write_to_ctrl_raises_a_late_interrupt() {
    let mut ppu = ppu_with(Mirroring::HORIZONTAL, false);
    ppu.status.set_vblank_status(true);
    ppu.write_to_ctrl(0x80);
    assert_eq!(ppu.nmi_interrupt, Some(1));
    assert_eq!(ppu.poll_nmi_interrupt(), Some(1));
    assert_eq!(ppu.poll_nmi_interrupt(), None);
    // already enabled: no new interrupt
    ppu.write_to_ctrl(0x80);
    assert_eq!(ppu.nmi_interrupt, None);
    // outside the blank: none either
    ppu.write_to_ctrl(0x00);
    ppu.status.set_vblank_status(false);
    ppu.write_to_ctrl(0x80);
    assert_eq!(ppu.nmi_interrupt, None);
}

#[test]
fn ppu_oam_data_write_moves_the_oam_address() {
    let mut ppu = ppu_with(Mirroring::HORIZONTAL, false);
    ppu.write_to_oam_addr(0x10);
    ppu.write_to_oam_data(0x66);
    ppu.write_to_oam_data(0x77);
    assert_eq!(ppu.oam_addr, 0x12);
    ppu.write_to_oam_addr(0x10);
    assert_eq!(ppu.read_oam_data(), 0x66);
    ppu.write_to_oam_addr(0x11);
    assert_eq!(ppu.read_oam_data(), 0x77);
    ppu.write_to_oam_addr(0xFF);
    ppu.write_to_oam_data(0x88);
    assert_eq!(ppu.oam_addr, 0x00);
    assert_eq!(ppu.oam_data[0xFF], 0x88);
}

#[test]
fn ppu_oam_dma_wraps_around_the_oam_address() {
    let mut ppu = ppu_with(Mirroring::HORIZONTAL, false);
    let mut data = [0x66u8; 256];
    data[0] = 0x77;
    data[255] = 0x88;
    ppu.write_to_oam_addr(0x10);
    ppu.write_oam_dma(&data);
    assert_eq!(ppu.oam_addr, 0x10);
    assert_eq!(ppu.oam_data[0x10], 0x77);
    assert_eq!(ppu.oam_data[0x0F], 0x88);
    assert_eq!(ppu.oam_data[0x11], 0x66);
    ppu.write_to_oam_addr(0x0f);
    assert_eq!(ppu.read_oam_data(), 0x88);
}

#[test]
fn ppu_write_to_scroll_takes_x_then_y() {
    let mut ppu = ppu_with(Mirroring::HORIZONTAL, false);
    ppu.write_to_scroll(0x12);
    ppu.write_to_scroll(0x34);
    assert_eq!((ppu.scroll.scroll_x, ppu.scroll.scroll_y), (0x12, 0x34));
    ppu.write_to_scroll(0x56);
    assert_eq!((ppu.scroll.scroll_x, ppu.scroll.scroll_y), (0x56, 0x34));
}

#[test]
fn scroll_register_latch() {
    let mut scroll = ScrollRegister::new();
    assert_eq!(scroll, ScrollRegister { scroll_x: 0, scroll_y: 0, latch: false });
    scroll.write(7);
    assert!(scroll.latch);
    scroll.reset_latch();
    scroll.write(9);
    assert_eq!(scroll, ScrollRegister { scroll_x: 9, scroll_y: 0, latch: true });
}

#[test]
fn addr_register_folds_into_14_bits() {
    let mut addr = AddrRegister::new();
    addr.update(0xFF);
    addr.update(0xFE);
    assert_eq!(addr.get(), 0x3FFE);
    addr.increment(1);
    assert_eq!(addr.get(), 0x3FFF);
    addr.increment(1);
    assert_eq!(addr.get(), 0x0000);
    addr.update(0x63);
    addr.update(0x05);
    assert_eq!(addr.get(), 0x2305);
    addr.increment(32);
    assert_eq!(addr.get(), 0x2325);
    addr.update(0x20);
    addr.update(0xF0);
    addr.increment(32);
    assert_eq!(addr.get(), 0x2110);
    addr.update(0x3F);
    addr.update(0xF0);
    addr.increment(32);
    assert_eq!(addr.get(), 0x0010);
}

#[test]
fn addr_register_second_write_sets_the_low_byte() {
    let mut addr = AddrRegister::new();
    addr.update(0x21);
    assert_eq!(addr.get(), 0x2100);
    assert!(!addr.hi_ptr);
    addr.update(0x34);
    assert_eq!(addr.get(), 0x2134);
    assert!(addr.hi_ptr);
    addr.update(0x22);
    addr.reset_latch();
    addr.update(0x23);
    assert_eq!(addr.get(), 0x2334);
}

#[test]
fn control_register_fields() {
    let mut ctrl = ControlRegister::new();
    assert_eq!(ctrl.nametable_addr(), 0x2000);
    assert_eq!(ctrl.vram_addr_increment(), 1);
    assert_eq!(ctrl.sprt_pattern_addr(), 0);
    assert_eq!(ctrl.bknd_pattern_addr(), 0);
    assert_eq!(ctrl.sprite_size(), 8);
    assert_eq!(ctrl.master_slave_select(), 0);
    assert!(!ctrl.generate_vblank_nmi());
    ctrl.update(0xFF);
    assert_eq!(ctrl.nametable_addr(), 0x2c00);
    assert_eq!(ctrl.vram_addr_increment(), 32);
    assert_eq!(ctrl.sprt_pattern_addr(), 0x1000);
    assert_eq!(ctrl.bknd_pattern_addr(), 0x1000);
    assert_eq!(ctrl.sprite_size(), 16);
    assert_eq!(ctrl.master_slave_select(), 1);
    assert!(ctrl.generate_vblank_nmi());
    ctrl.update(0b01);
    assert_eq!(ctrl.nametable_addr(), 0x2400);
    ctrl.update(0b10);
    assert_eq!(ctrl.nametable_addr(), 0x2800);
}

#[test]
fn mask_register_fields() {
    let mut mask = MaskRegister::new();
    assert!(!mask.is_grayscale());
    assert!(!mask.leftmost_8pixel_background());
    assert!(!mask.leftmost_8pixel_sprites());
    assert!(!mask.show_background());
    assert!(!mask.show_sprites());
    assert_eq!(mask.emphasize(), Vec::<Color>::new());
    mask.update(0b0000_0001);
    assert!(mask.is_grayscale());
    mask.update(0b0000_0010);
    assert!(mask.leftmost_8pixel_background());
    mask.update(0b0000_0100);
    assert!(mask.leftmost_8pixel_sprites());
    mask.update(0b0000_1000);
    assert!(mask.show_background());
    mask.update(0b0001_0000);
    assert!(mask.show_sprites());
    assert!(!mask.show_background());
}

#[test]
fn mask_register_emphasize_lists_red_green_blue() {
    let mut mask = MaskRegister::new();
    mask.update(0b1110_0000);
    assert_eq!(mask.emphasize(), vec![Color::Red, Color::Green, Color::Blue]);
    mask.update(0b1010_0000);
    assert_eq!(mask.emphasize(), vec![Color::Red, Color::Blue]);
    mask.update(0b0100_0000);
    assert_eq!(mask.emphasize(), vec![Color::Green]);
    mask.update(0b1000_0000);
    assert_eq!(mask.emphasize(), vec![Color::Blue]);
}

#[test]
fn status_register_flags() {
    let mut status = StatusRegister::new();
    assert_eq!(status.snapshot(), 0);
    status.set_vblank_status(true);
    assert!(status.is_in_vblank());
    status.set_sprite_zero_hit(true);
    status.set_sprite_overflow(true);
    assert_eq!(status.snapshot(), 0b1110_0000);
    status.reset_vblank_status();
    assert!(!status.is_in_vblank());
    assert!(status.is_sprite_zero_hit());
    status.set_sprite_zero_hit(false);
    assert_eq!(status.snapshot(), 0b0010_0000);
    status.set_sprite_overflow(false);
    assert_eq!(status.snapshot(), 0);
}

#[test]
fn tile_id_new() {
    assert_eq!(TileId::new(false, 0x35), TileId::Normal { id: 0x35 });
    assert_eq!(TileId::new(true, 0x35), TileId::Large { bank: 0x1000, id: 0x34 });
    assert_eq!(TileId::new(true, 0x34), TileId::Large { bank: 0x0000, id: 0x34 });
}

#[test]
fn sprite_attr_new() {
    assert_eq!(
        SpriteAttr::new(0b1110_0011),
        SpriteAttr { palette: 3, priority: 1, is_flip_horizonal: true, is_flip_vertical: true }
    );
    assert_eq!(
        SpriteAttr::new(0b0100_0001),
        SpriteAttr { palette: 1, priority: 0, is_flip_horizonal: true, is_flip_vertical: false }
    );
    assert_eq!(
        SpriteAttr::new(0b1000_0010),
        SpriteAttr { palette: 2, priority: 0, is_flip_horizonal: false, is_flip_vertical: true }
    );
}

#[test]
fn sprite_new() {
    let sprite = Sprite::new(true, [0x10, 0x03, 0x21, 0x40]);
    assert_eq!(sprite.y, 0x10);
    assert_eq!(sprite.x, 0x40);
    assert_eq!(sprite.tile_id, TileId::Large { bank: 0x1000, id: 0x02 });
    assert_eq!(
        sprite.attr,
        SpriteAttr { palette: 1, priority: 1, is_flip_horizonal: false, is_flip_vertical: false }
    );
}

#[test]
fn line_status_from() {
    assert_eq!(LineStatus::from(0), LineStatus::Visible);
    assert_eq!(LineStatus::from(239), LineStatus::Visible);
    assert_eq!(LineStatus::from(240), LineStatus::PostRender);
    assert_eq!(LineStatus::from(241), LineStatus::VerticalBlanking(true));
    assert_eq!(LineStatus::from(242), LineStatus::VerticalBlanking(false));
    assert_eq!(LineStatus::from(260), LineStatus::VerticalBlanking(false));
    assert_eq!(LineStatus::from(261), LineStatus::PreRender);
}
