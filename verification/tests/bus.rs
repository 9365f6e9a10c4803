use nes_emulator::bus::Bus;
use nes_emulator::cartridge::{Mirroring, Rom};
use nes_emulator::cpu::Mem;
use nes_emulator::joypad::JoypadButton;

fn cartridge(prg_len: usize, mirroring: Mirroring) -> Rom {
    let mut prg_rom = vec![0u8; prg_len];
    for (i, cell) in prg_rom.iter_mut().enumerate() {
        *cell = (i % 253) as u8;
    }
    Rom { prg_rom, chr_rom: vec![0u8; 0x2000], mapper: 0, screen_mirroring: mirroring, is_chr_ram: true }
}

fn plain_bus() -> Bus {
    Bus::new(cartridge(0x8000, Mirroring::VERTICAL))
}

#[test]
fn bus_new_starts_cleared() {
    let bus = plain_bus();
    assert_eq!(bus.cpu_vram, [0u8; 2048]);
    assert_eq!(bus.cycles, 0);
    assert_eq!(bus.prg_rom.len(), 0x8000);
    assert_eq!(bus.ppu.mirroring, Mirroring::VERTICAL);
    assert!(bus.ppu.is_chr_ram);
}

#[test]
fn bus_ram_is_mirrored_every_0x0800() {
    let mut bus = plain_bus();
    bus.mem_write(0x0001, 0x55);
    assert_eq!(bus.mem_read(0x0001), 0x55);
    assert_eq!(bus.mem_read(0x0801), 0x55);
    assert_eq!(bus.mem_read(0x1001), 0x55);
    assert_eq!(bus.mem_read(0x1801), 0x55);
    bus.mem_write(0x1FFF, 0x66);
    assert_eq!(bus.mem_read(0x07FF), 0x66);
    assert_eq!(bus.cpu_vram[0x7FF], 0x66);
}

#[test]
fn bus_word_written_to_ram_reads_back() {
    let mut bus = plain_bus();
    for (addr, value) in [(0x0000u16, 0x1234u16), (0x07FF, 0xBEEF), (0x1FFE, 0x00FF), (0x0100, 0xFF00)] {
        bus.mem_write_u16(addr, value);
        assert_eq!(bus.mem_read_u16(addr), value);
        assert_eq!(bus.mem_read(addr), (value & 0xFF) as u8);
        assert_eq!(bus.mem_read(addr + 1), (value >> 8) as u8);
    }
}

#[test]
fn bus_word_written_outside_ram_may_not_read_back() {
    let mut bus = plain_bus();
    bus.mem_write_u16(0x5000, 0x0001);
    assert_eq!(bus.mem_read_u16(0x5000), 0);
}

#[test]
fn bus_reads_prg_rom_from_0x8000() {
    let mut bus = plain_bus();
    assert_eq!(bus.mem_read(0x8000), 0);
    assert_eq!(bus.mem_read(0x8001), 1);
    assert_eq!(bus.mem_read(0xC000), (0x4000 % 253) as u8);
    assert_eq!(bus.mem_read(0xFFFF), (0x7FFF % 253) as u8);
    assert_eq!(bus.mem_read_u16(0x8001), 0x0201);
}

#[test]
fn bus_shows_a_single_prg_bank_twice() {
    let mut bus = Bus::new(cartridge(0x4000, Mirroring::VERTICAL));
    assert_eq!(bus.mem_read(0x8005), 5);
    assert_eq!(bus.mem_read(0xC005), 5);
    assert_eq!(bus.mem_read(0xFFFF), (0x3FFF % 253) as u8);
    assert_eq!(bus.mem_read(0xBFFF), (0x3FFF % 253) as u8);
}

#[test]
fn bus_can_read_tells_the_write_only_registers() {
    let bus = plain_bus();
    for addr in [0x2000u16, 0x2001, 0x2003, 0x2005, 0x2006, 0x4014, 0x2008, 0x3FF9, 0x3FFE] {
        assert!(!bus.can_read(addr), "{:04x}", addr);
    }
    for addr in [0x0000u16, 0x1FFF, 0x2002, 0x2004, 0x2007, 0x200A, 0x3FFF, 0x4000, 0x4015, 0x4016,
        0x4017, 0x4018, 0x7FFF, 0x8000, 0xFFFF]
    {
        assert!(bus.can_read(addr), "{:04x}", addr);
    }
}

#[test]
fn bus_can_read_tells_rom_that_is_not_there() {
    let empty = Bus::new(cartridge(0, Mirroring::VERTICAL));
    assert!(!empty.can_read(0x8000));
    assert!(!empty.can_read(0xFFFC));
    assert!(empty.can_read(0x0000));
    let short = Bus::new(cartridge(0x2000, Mirroring::VERTICAL));
    assert!(short.can_read(0x9FFF));
    assert!(!short.can_read(0xA000));
    assert!(short.can_write(0x4014, 0x80));
    assert!(short.can_write(0x4014, 0x9F));
    assert!(!short.can_write(0x4014, 0xA0));
    assert!(!short.can_write(0x4014, 0xFF));
}

#[test]
fn bus_can_write_tells_status_rom_and_bad_dma_pages() {
    let bus = plain_bus();
    for addr in [0x2002u16, 0x200A, 0x3FFA, 0x8000, 0xFFFC, 0xFFFF] {
        assert!(!bus.can_write(addr, 0), "{:04x}", addr);
    }
    for addr in [0x0000u16, 0x1FFF, 0x2000, 0x2001, 0x2003, 0x2004, 0x2005, 0x2006, 0x2007,
        0x3FFF, 0x4000, 0x4013, 0x4015, 0x4016, 0x4017, 0x4018, 0x7FFF]
    {
        assert!(bus.can_write(addr, 0), "{:04x}", addr);
    }
    assert!(bus.can_write(0x4014, 0x00));
    assert!(bus.can_write(0x4014, 0x1F));
    assert!(!bus.can_write(0x4014, 0x20));
    assert!(!bus.can_write(0x4014, 0x3F));
    assert!(!bus.can_write(0x4014, 0x40));
    assert!(bus.can_write(0x4014, 0x41));
    assert!(bus.can_write(0x4014, 0x80));
    assert!(bus.can_write(0x4014, 0xFF));
}

#[test]
fn bus_reaches_the_graphics_registers_and_their_mirrors() {
    let mut bus = plain_bus();
    bus.mem_write(0x2000, 0b0000_0100);
    assert_eq!(bus.ppu.ctrl.bits, 0b0000_0100);
    bus.mem_write(0x2009, 0b0001_1000);
    assert_eq!(bus.ppu.mask.bits, 0b0001_1000);
    bus.mem_write(0x2003, 0x10);
    bus.mem_write(0x2004, 0x99);
    assert_eq!(bus.ppu.oam_data[0x10], 0x99);
    bus.mem_write(0x3FFB, 0x10);
    assert_eq!(bus.mem_read(0x2004), 0x99);
    assert_eq!(bus.mem_read(0x3FFC), 0x99);
    bus.mem_write(0x2005, 0x12);
    bus.mem_write(0x2005, 0x34);
    assert_eq!((bus.ppu.scroll.scroll_x, bus.ppu.scroll.scroll_y), (0x12, 0x34));
    bus.mem_write(0x2006, 0x23);
    bus.mem_write(0x2006, 0x05);
    bus.mem_write(0x2007, 0x66);
    assert_eq!(bus.ppu.vram[0x0305], 0x66);
    assert_eq!(bus.ppu.addr.get(), 0x2325);
    bus.mem_write(0x2000, 0);
    bus.mem_write(0x2006, 0x23);
    bus.mem_write(0x2006, 0x05);
    assert_eq!(bus.mem_read(0x2007), 0);
    assert_eq!(bus.mem_read(0x3FFF), 0x66);
    bus.ppu.status.set_vblank_status(true);
    assert_eq!(bus.mem_read(0x2002), 0x80);
    assert_eq!(bus.mem_read(0x200A), 0x00);
}

#[test]
fn bus_oam_dma_copies_a_page_of_ram() {
    let mut bus = plain_bus();
    for i in 0..256u16 {
        bus.mem_write(0x0200 + i, (i as u8) ^ 0x5A);
    }
    bus.mem_write(0x2003, 0x04);
    bus.mem_write(0x4014, 0x02);
    for i in 0..256usize {
        assert_eq!(bus.ppu.oam_data[(i + 4) % 256], (i as u8) ^ 0x5A);
    }
    assert_eq!(bus.ppu.oam_addr, 0x04);
}

#[test]
fn bus_oam_dma_copies_a_page_of_rom_or_of_nothing() {
    let mut bus = plain_bus();
    bus.mem_write(0x4014, 0x81);
    for i in 0..256usize {
        assert_eq!(bus.ppu.oam_data[i], ((0x0100 + i) % 253) as u8);
    }
    bus.mem_write(0x4014, 0x50);
    assert_eq!(bus.ppu.oam_data, [0u8; 256]);
}

#[test]
fn bus_reads_zero_where_nothing_is_mapped() {
    let mut bus = plain_bus();
    for addr in [0x4000u16, 0x4013, 0x4015, 0x4017, 0x4018, 0x5000, 0x7FFF] {
        bus.mem_write(addr, 0xAB);
        assert_eq!(bus.mem_read(addr), 0, "{:04x}", addr);
    }
}

#[test]
fn bus_forwards_audio_writes() {
    let mut bus = plain_bus();
    bus.mem_write(0x4000, 0b1011_0101);
    assert_eq!(bus.apu.square1.duty, 2);
    assert_eq!(bus.apu.square1.volume, 5);
    assert!(bus.apu.updates.square1);
    assert!(!bus.apu.updates.square2);
    bus.mem_write(0x4006, 0xFD);
    bus.mem_write(0x4007, 0b0000_1010);
    assert_eq!(bus.apu.square2.timer, 0x2FD);
    assert_eq!(bus.apu.square2.length_counter_load, 1);
    bus.mem_write(0x400A, 0x34);
    assert_eq!(bus.apu.triangle.timer, 0x034);
    bus.mem_write(0x400E, 0x85);
    assert_eq!(bus.apu.noise.period, 5);
    assert!(!bus.apu.noise.is_long_period);
    let updates = bus.apu.take_updates();
    assert!(updates.square1 && updates.square2 && updates.triangle && updates.noise);
    let before = bus.apu;
    bus.mem_write(0x4010, 0xFF);
    bus.mem_write(0x4015, 0xFF);
    assert_eq!(bus.apu, before);
    assert!(!bus.apu.updates.square1);
}

#[test]
fn bus_reads_the_first_controller() {
    let mut bus = plain_bus();
    bus.joypad1.set_button_pressed_status(JoypadButton::BUTTON_A, true);
    bus.joypad1.set_button_pressed_status(JoypadButton::START, true);
    bus.mem_write(0x4016, 1);
    assert_eq!(bus.mem_read(0x4016), 1);
    assert_eq!(bus.mem_read(0x4016), 1);
    bus.mem_write(0x4016, 0);
    let reads: Vec<u8> = (0..10).map(|_| bus.mem_read(0x4016)).collect();
    assert_eq!(reads, vec![1, 0, 0, 1, 0, 0, 0, 0, 1, 1]);
    assert_eq!(bus.mem_read(0x4017), 0);
}

#[test]
fn bus_tick_advances_three_dots_per_cycle() {
    let mut bus = plain_bus();
    assert!(!bus.tick(7));
    assert_eq!(bus.cycles, 7);
    assert_eq!((bus.ppu.scanline, bus.ppu.cycles), (0, 21));
    assert!(!bus.tick(255));
    assert_eq!(bus.cycles, 262);
    assert_eq!((bus.ppu.scanline, bus.ppu.cycles), (2, 786 - 682));
    assert!(!bus.tick(0));
    assert_eq!(bus.cycles, 262);
}

#[test]
fn bus_tick_reports_one_frame_per_frame() {
    let mut bus = plain_bus();
    bus.mem_write(0x2000, 0x80);
    let mut frames = 0;
    let cycles_per_frame = 262 * 341 / 3 + 1;
    for _ in 0..cycles_per_frame {
        if bus.tick(1) {
            frames += 1;
        }
    }
    assert_eq!(frames, 1);
    for _ in 0..cycles_per_frame {
        if bus.tick(1) {
            frames += 1;
        }
    }
    assert_eq!(frames, 2);
}

#[test]
fn bus_tick_reports_no_frame_without_the_interrupt_enabled() {
    let mut bus = plain_bus();
    for _ in 0..30000 {
        assert!(!bus.tick(1));
    }
}

#[test]
fn bus_poll_nmi_status_takes_the_interrupt() {
    let mut bus = plain_bus();
    bus.mem_write(0x2000, 0x80);
    assert_eq!(bus.poll_nmi_status(), None);
    let mut seen = false;
    for _ in 0..(241 * 341 / 3 + 1) {
        seen = bus.tick(1) || seen;
    }
    assert!(seen);
    assert_eq!(bus.poll_nmi_status(), Some(1));
    assert_eq!(bus.poll_nmi_status(), None);
}

#[test]
fn bus_patch_rom_replaces_a_byte_of_rom() {
    let mut bus = plain_bus();
    assert!(bus.rom_covers(0x8000));
    assert!(bus.rom_covers(0xFFFF));
    assert!(!bus.rom_covers(0x7FFF));
    bus.patch_rom(0x8010, 0xAB);
    assert_eq!(bus.mem_read(0x8010), 0xAB);
    assert_eq!(bus.mem_read(0x8011), 0x11);
    assert_eq!(bus.prg_rom[0x10], 0xAB);
    assert!(!bus.can_write(0x8010, 0));
    let mut single = Bus::new(cartridge(0x4000, Mirroring::VERTICAL));
    single.patch_rom(0xC010, 0xCD);
    assert_eq!(single.mem_read(0x8010), 0xCD);
    assert_eq!(single.mem_read(0xC010), 0xCD);
}

#[test]
fn bus_tick_reports_one_frame_whatever_the_lengths_of_the_ticks() {
    for lengths in [[2u8, 3, 4, 7], [7, 7, 7, 7], [1, 2, 1, 6], [5, 4, 3, 2]] {
        let mut bus = plain_bus();
        bus.mem_write(0x2000, 0x80);
        let mut frames = 0;
        let mut total = 0usize;
        let mut i = 0;
        while total < 262 * 341 / 3 + 1 {
            let cycles = lengths[i % 4];
            if bus.tick(cycles) {
                frames += 1;
            }
            total += cycles as usize;
            i += 1;
        }
        assert_eq!(frames, 1);
    }
}
