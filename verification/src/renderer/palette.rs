//! The colours of the console, and the palette of a background tile.

use vstd::prelude::*;
use crate::ppu::{NesPPU, PpuState};

verus! {

/// Number of colours that the console can show.
pub const SYSTEM_PALLETE_SIZE: u8 = 64;

/// First cell of the attribute table of the first nametable.
pub const ATTRIBUTE_TABLE: usize = 0x3c0;

/// The colour with the given number, as red, green and blue.
pub open spec fn spec_system_pallete(index: u8) -> (u8, u8, u8) {
    match index {
        0 => (0x80u8, 0x80u8, 0x80u8),
        1 => (0x00u8, 0x3du8, 0xa6u8),
        2 => (0x00u8, 0x12u8, 0xb0u8),
        3 => (0x44u8, 0x00u8, 0x96u8),
        4 => (0xa1u8, 0x00u8, 0x5eu8),
        5 => (0xc7u8, 0x00u8, 0x28u8),
        6 => (0xbau8, 0x06u8, 0x00u8),
        7 => (0x8cu8, 0x17u8, 0x00u8),
        8 => (0x5cu8, 0x2fu8, 0x00u8),
        9 => (0x10u8, 0x45u8, 0x00u8),
        10 => (0x05u8, 0x4au8, 0x00u8),
        11 => (0x00u8, 0x47u8, 0x2eu8),
        12 => (0x00u8, 0x41u8, 0x66u8),
        13 => (0x00u8, 0x00u8, 0x00u8),
        14 => (0x05u8, 0x05u8, 0x05u8),
        15 => (0x05u8, 0x05u8, 0x05u8),
        16 => (0xc7u8, 0xc7u8, 0xc7u8),
        17 => (0x00u8, 0x77u8, 0xffu8),
        18 => (0x21u8, 0x55u8, 0xffu8),
        19 => (0x82u8, 0x37u8, 0xfau8),
        20 => (0xebu8, 0x2fu8, 0xb5u8),
        21 => (0xffu8, 0x29u8, 0x50u8),
        22 => (0xffu8, 0x22u8, 0x00u8),
        23 => (0xd6u8, 0x32u8, 0x00u8),
        24 => (0xc4u8, 0x62u8, 0x00u8),
        25 => (0x35u8, 0x80u8, 0x00u8),
        26 => (0x05u8, 0x8fu8, 0x00u8),
        27 => (0x00u8, 0x8au8, 0x55u8),
        28 => (0x00u8, 0x99u8, 0xccu8),
        29 => (0x21u8, 0x21u8, 0x21u8),
        30 => (0x09u8, 0x09u8, 0x09u8),
        31 => (0x09u8, 0x09u8, 0x09u8),
        32 => (0xffu8, 0xffu8, 0xffu8),
        33 => (0x0fu8, 0xd7u8, 0xffu8),
        34 => (0x69u8, 0xa2u8, 0xffu8),
        35 => (0xd4u8, 0x80u8, 0xffu8),
        36 => (0xffu8, 0x45u8, 0xf3u8),
        37 => (0xffu8, 0x61u8, 0x8bu8),
        38 => (0xffu8, 0x88u8, 0x33u8),
        39 => (0xffu8, 0x9cu8, 0x12u8),
        40 => (0xfau8, 0xbcu8, 0x20u8),
        41 => (0x9fu8, 0xe3u8, 0x0eu8),
        42 => (0x2bu8, 0xf0u8, 0x35u8),
        43 => (0x0cu8, 0xf0u8, 0xa4u8),
        44 => (0x05u8, 0xfbu8, 0xffu8),
        45 => (0x5eu8, 0x5eu8, 0x5eu8),
        46 => (0x0du8, 0x0du8, 0x0du8),
        47 => (0x0du8, 0x0du8, 0x0du8),
        48 => (0xffu8, 0xffu8, 0xffu8),
        49 => (0xa6u8, 0xfcu8, 0xffu8),
        50 => (0xb3u8, 0xecu8, 0xffu8),
        51 => (0xdau8, 0xabu8, 0xebu8),
        52 => (0xffu8, 0xa8u8, 0xf9u8),
        53 => (0xffu8, 0xabu8, 0xb3u8),
        54 => (0xffu8, 0xd2u8, 0xb0u8),
        55 => (0xffu8, 0xefu8, 0xa6u8),
        56 => (0xffu8, 0xf7u8, 0x9cu8),
        57 => (0xd7u8, 0xe8u8, 0x95u8),
        58 => (0xa6u8, 0xedu8, 0xafu8),
        59 => (0xa2u8, 0xf2u8, 0xdau8),
        60 => (0x99u8, 0xffu8, 0xfcu8),
        61 => (0xddu8, 0xddu8, 0xddu8),
        62 => (0x11u8, 0x11u8, 0x11u8),
        _ => (0x11u8, 0x11u8, 0x11u8),
    }
}

/// Looks up a colour of the console.
pub fn system_pallete(index: u8) -> (rgb: (u8, u8, u8))
    requires
        index < SYSTEM_PALLETE_SIZE,
    ensures
        rgb == spec_system_pallete(index),
{
    match index {
        0 => (0x80, 0x80, 0x80),
        1 => (0x00, 0x3d, 0xa6),
        2 => (0x00, 0x12, 0xb0),
        3 => (0x44, 0x00, 0x96),
        4 => (0xa1, 0x00, 0x5e),
        5 => (0xc7, 0x00, 0x28),
        6 => (0xba, 0x06, 0x00),
        7 => (0x8c, 0x17, 0x00),
        8 => (0x5c, 0x2f, 0x00),
        9 => (0x10, 0x45, 0x00),
        10 => (0x05, 0x4a, 0x00),
        11 => (0x00, 0x47, 0x2e),
        12 => (0x00, 0x41, 0x66),
        13 => (0x00, 0x00, 0x00),
        14 => (0x05, 0x05, 0x05),
        15 => (0x05, 0x05, 0x05),
        16 => (0xc7, 0xc7, 0xc7),
        17 => (0x00, 0x77, 0xff),
        18 => (0x21, 0x55, 0xff),
        19 => (0x82, 0x37, 0xfa),
        20 => (0xeb, 0x2f, 0xb5),
        21 => (0xff, 0x29, 0x50),
        22 => (0xff, 0x22, 0x00),
        23 => (0xd6, 0x32, 0x00),
        24 => (0xc4, 0x62, 0x00),
        25 => (0x35, 0x80, 0x00),
        26 => (0x05, 0x8f, 0x00),
        27 => (0x00, 0x8a, 0x55),
        28 => (0x00, 0x99, 0xcc),
        29 => (0x21, 0x21, 0x21),
        30 => (0x09, 0x09, 0x09),
        31 => (0x09, 0x09, 0x09),
        32 => (0xff, 0xff, 0xff),
        33 => (0x0f, 0xd7, 0xff),
        34 => (0x69, 0xa2, 0xff),
        35 => (0xd4, 0x80, 0xff),
        36 => (0xff, 0x45, 0xf3),
        37 => (0xff, 0x61, 0x8b),
        38 => (0xff, 0x88, 0x33),
        39 => (0xff, 0x9c, 0x12),
        40 => (0xfa, 0xbc, 0x20),
        41 => (0x9f, 0xe3, 0x0e),
        42 => (0x2b, 0xf0, 0x35),
        43 => (0x0c, 0xf0, 0xa4),
        44 => (0x05, 0xfb, 0xff),
        45 => (0x5e, 0x5e, 0x5e),
        46 => (0x0d, 0x0d, 0x0d),
        47 => (0x0d, 0x0d, 0x0d),
        48 => (0xff, 0xff, 0xff),
        49 => (0xa6, 0xfc, 0xff),
        50 => (0xb3, 0xec, 0xff),
        51 => (0xda, 0xab, 0xeb),
        52 => (0xff, 0xa8, 0xf9),
        53 => (0xff, 0xab, 0xb3),
        54 => (0xff, 0xd2, 0xb0),
        55 => (0xff, 0xef, 0xa6),
        56 => (0xff, 0xf7, 0x9c),
        57 => (0xd7, 0xe8, 0x95),
        58 => (0xa6, 0xed, 0xaf),
        59 => (0xa2, 0xf2, 0xda),
        60 => (0x99, 0xff, 0xfc),
        61 => (0xdd, 0xdd, 0xdd),
        62 => (0x11, 0x11, 0x11),
        _ => (0x11, 0x11, 0x11),
    }
}

/// Number of the background palette that the attribute table assigns to
/// the tile at the given column and row: an attribute byte covers 4 x 4
/// tiles, and holds two bits for each of its four 2 x 2 quadrants.
pub open spec fn spec_bg_pallette_index(ppu: PpuState, tile_column: int, tile_row: int) -> u8 {
    let attr_byte = ppu.vram[ATTRIBUTE_TABLE + tile_row / 4 * 8 + tile_column / 4];
    let right = tile_column % 4 / 2 == 1;
    let lower = tile_row % 4 / 2 == 1;
    if !right && !lower {
        attr_byte % 4
    } else if right && !lower {
        (attr_byte / 4) % 4
    } else if !right && lower {
        (attr_byte / 16) % 4
    } else {
        (attr_byte / 64) % 4
    }
}

/// The four colour numbers of the tile at the given column and row: the
/// shared backdrop, then the three colours of the tile's palette.
pub open spec fn spec_bg_pallette(ppu: PpuState, tile_column: int, tile_row: int) -> Seq<u8> {
    let start = 1 + spec_bg_pallette_index(ppu, tile_column, tile_row) * 4;
    seq![ppu.palette[0], ppu.palette[start], ppu.palette[start + 1], ppu.palette[start + 2]]
}

/// Finds the four colour numbers of the tile at the given column and row
/// of the first nametable.
pub fn bg_pallette(ppu: &NesPPU, tile_column: usize, tile_row: usize) -> (colours: [u8; 4])
    requires
        ppu@.wf(),
        tile_column < 32,
        tile_row < 30,
    ensures
        colours@ == spec_bg_pallette(ppu@, tile_column as int, tile_row as int),
{
    let attr_table_idx = tile_row / 4 * 8 + tile_column / 4;
    let attr_byte = ppu.vram[ATTRIBUTE_TABLE + attr_table_idx];

    let right = tile_column % 4 / 2 == 1;
    let lower = tile_row % 4 / 2 == 1;
    let pallet_idx = if !right && !lower {
        attr_byte % 4
    } else if right && !lower {
        (attr_byte / 4) % 4
    } else if !right && lower {
        (attr_byte / 16) % 4
    } else {
        (attr_byte / 64) % 4
    };

    let pallete_start: usize = 1 + (pallet_idx as usize) * 4;
    let colours = [
        ppu.palette_table[0],
        ppu.palette_table[pallete_start],
        ppu.palette_table[pallete_start + 1],
        ppu.palette_table[pallete_start + 2],
    ];
    assert(colours@ =~= spec_bg_pallette(ppu@, tile_column as int, tile_row as int));
    colours
}

} // verus!
