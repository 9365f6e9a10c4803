//! The picture of the background: the tiles of the first nametable, drawn
//! with the colours that the attribute table assigns to them.

pub mod frame;
pub mod palette;

use vstd::prelude::*;
use crate::ppu::{NesPPU, PpuState};
use crate::renderer::frame::{lemma_set_pixel, Frame, HIGHT, WIDTH};
use crate::renderer::palette::{
    bg_pallette,
    spec_bg_pallette,
    spec_system_pallete,
    system_pallete,
    SYSTEM_PALLETE_SIZE,
};

verus! {

/// Number of tiles in a nametable.
pub const TILES: usize = 0x03c0;

/// Bit `bit` of `byte`, as 0 or 1.
pub open spec fn spec_bit(byte: u8, bit: u8) -> u8 {
    (byte >> bit) & 1
}

fn bit(byte: u8, position: u8) -> (r: u8)
    requires
        position < 8,
    ensures
        r == spec_bit(byte, position),
        r <= 1,
{
    assert((byte >> position) & 1 <= 1) by (bit_vector);
    (byte >> position) & 1
}

/// Address in pattern memory of the first byte of the tile shown at the
/// given column and row of the first nametable.
pub open spec fn spec_tile_start(ppu: PpuState, tile_column: int, tile_row: int) -> int {
    ppu.ctrl.spec_bknd_pattern_addr() + ppu.vram[tile_row * 32 + tile_column] * 16
}

/// Position, from 0 to 3, in its tile's palette of the background pixel at
/// column `x` of row `y`. A tile is 16 bytes of pattern memory; a row of
/// its pixels takes one bit each from byte `y % 8` (the high bit of the
/// position) and from the byte 8 after it (the low bit), leftmost pixel in
/// bit 7.
pub open spec fn spec_pixel_value(ppu: PpuState, x: int, y: int) -> int {
    let start = spec_tile_start(ppu, x / 8, y / 8);
    let upper = ppu.chr[start + y % 8];
    let lower = ppu.chr[start + y % 8 + 8];
    spec_bit(upper, (7 - x % 8) as u8) * 2 + spec_bit(lower, (7 - x % 8) as u8)
}

/// Number of the colour of the background pixel at column `x` of row `y`.
pub open spec fn spec_colour_index(ppu: PpuState, x: int, y: int) -> u8 {
    spec_bg_pallette(ppu, x / 8, y / 8)[spec_pixel_value(ppu, x, y)]
}

/// The background can be drawn: every tile of the first nametable lies in
/// pattern memory, and every pixel's colour number names a colour of the
/// console.
pub open spec fn renderable(ppu: PpuState) -> bool {
    &&& forall|tile_column: int, tile_row: int|
        0 <= tile_column < 32 && 0 <= tile_row < 30 ==> #[trigger] spec_tile_start(
            ppu,
            tile_column,
            tile_row,
        ) + 15 < ppu.chr.len()
    &&& forall|x: int, y: int|
        0 <= x < WIDTH && 0 <= y < HIGHT ==> #[trigger] spec_colour_index(ppu, x, y)
            < SYSTEM_PALLETE_SIZE
}

/// Tells whether the background can be drawn.
pub fn can_render(ppu: &NesPPU) -> (r: bool)
    requires
        ppu@.wf(),
    ensures
        r == renderable(ppu@),
{
    let bank = ppu.ctrl.bknd_pattern_addr();

    let mut i: usize = 0;
    while i < TILES
        invariant
            i <= TILES,
            ppu@.wf(),
            bank == ppu@.ctrl.spec_bknd_pattern_addr(),
            forall|tile_column: int, tile_row: int|
                0 <= tile_column < 32 && 0 <= tile_row < 30 && tile_row * 32 + tile_column < i
                    ==> #[trigger] spec_tile_start(ppu@, tile_column, tile_row) + 15
                    < ppu@.chr.len(),
            forall|x: int, y: int|
                0 <= x < WIDTH && 0 <= y < HIGHT && (y / 8) * 32 + x / 8 < i
                    ==> #[trigger] spec_colour_index(ppu@, x, y) < SYSTEM_PALLETE_SIZE,
        decreases TILES - i,
    {
        let tile = ppu.vram[i] as usize;
        let tile_column = i % 32;
        let tile_row = i / 32;
        let tile_start = bank as usize + tile * 16;
        assert(tile_start == spec_tile_start(ppu@, tile_column as int, tile_row as int));
        if tile_start + 15 >= ppu.chr_rom.len() {
            return false;
        }
        let palette = bg_pallette(ppu, tile_column, tile_row);

        let mut y: usize = 0;
        while y < 8
            invariant
                y <= 8,
                i < TILES,
                tile_column == i % 32,
                tile_row == i / 32,
                ppu@.wf(),
                tile_start == spec_tile_start(ppu@, tile_column as int, tile_row as int),
                tile_start + 15 < ppu@.chr.len(),
                palette@ == spec_bg_pallette(ppu@, tile_column as int, tile_row as int),
                forall|px: int, py: int|
                    0 <= px < WIDTH && 0 <= py < HIGHT && ((py / 8) * 32 + px / 8 < i || ((py / 8)
                        * 32 + px / 8 == i && py % 8 < y)) ==> #[trigger] spec_colour_index(
                        ppu@,
                        px,
                        py,
                    ) < SYSTEM_PALLETE_SIZE,
            decreases 8 - y,
        {
            let upper = ppu.chr_rom[tile_start + y];
            let lower = ppu.chr_rom[tile_start + y + 8];

            let mut x: usize = 0;
            while x < 8
                invariant
                    x <= 8,
                    y < 8,
                    i < TILES,
                    tile_column == i % 32,
                    tile_row == i / 32,
                    ppu@.wf(),
                    tile_start == spec_tile_start(ppu@, tile_column as int, tile_row as int),
                    upper == ppu@.chr[tile_start + y],
                    lower == ppu@.chr[tile_start + y + 8],
                    palette@ == spec_bg_pallette(ppu@, tile_column as int, tile_row as int),
                    forall|px: int, py: int|
                        0 <= px < WIDTH && 0 <= py < HIGHT && ((py / 8) * 32 + px / 8 < i || ((py
                            / 8) * 32 + px / 8 == i && (py % 8 < y || (py % 8 == y && px % 8
                            < x)))) ==> #[trigger] spec_colour_index(ppu@, px, py)
                            < SYSTEM_PALLETE_SIZE,
                decreases 8 - x,
            {
                let shift = (7 - x) as u8;
                let value = bit(upper, shift) * 2 + bit(lower, shift);
                let px = tile_column * 8 + x;
                let py = tile_row * 8 + y;
                assert(px / 8 == tile_column && px % 8 == x && py / 8 == tile_row && py % 8 == y);
                assert(value == spec_pixel_value(ppu@, px as int, py as int));
                assert(palette@[value as int] == spec_colour_index(ppu@, px as int, py as int));
                if palette[value as usize] >= SYSTEM_PALLETE_SIZE {
                    return false;
                }
                proof {
                    assert forall|qx: int, qy: int|
                        0 <= qx < WIDTH && 0 <= qy < HIGHT && ((qy / 8) * 32 + qx / 8 < i || ((qy
                            / 8) * 32 + qx / 8 == i && (qy % 8 < y || (qy % 8 == y && qx % 8 < x
                            + 1)))) implies #[trigger] spec_colour_index(ppu@, qx, qy)
                        < SYSTEM_PALLETE_SIZE by {
                        if (qy / 8) * 32 + qx / 8 == i && qy % 8 == y && qx % 8 == x {
                            assert(qx / 8 == tile_column && qy / 8 == tile_row);
                            assert(qx == px && qy == py);
                        }
                    }
                }
                x += 1;
            }
            y += 1;
        }
        proof {
            assert forall|tile_column: int, tile_row: int|
                0 <= tile_column < 32 && 0 <= tile_row < 30 && tile_row * 32 + tile_column < i + 1
                    implies #[trigger] spec_tile_start(ppu@, tile_column, tile_row) + 15
                < ppu@.chr.len() by {
                if tile_row * 32 + tile_column == i {
                    assert(tile_column == i % 32 && tile_row == i / 32);
                }
            }
        }
        i += 1;
    }
    proof {
        assert forall|tile_column: int, tile_row: int|
            0 <= tile_column < 32 && 0 <= tile_row < 30 implies #[trigger] spec_tile_start(
            ppu@,
            tile_column,
            tile_row,
        ) + 15 < ppu@.chr.len() by {
            assert(tile_row * 32 + tile_column < TILES);
        }
        assert forall|x: int, y: int| 0 <= x < WIDTH && 0 <= y < HIGHT implies #[trigger] spec_colour_index(
            ppu@,
            x,
            y,
        ) < SYSTEM_PALLETE_SIZE by {
            assert((y / 8) * 32 + x / 8 < TILES);
        }
    }
    true
}

/// The pixel at column `x` of row `y` shows the background.
pub open spec fn drawn(frame: Frame, ppu: PpuState, x: int, y: int) -> bool {
    frame.spec_pixel(x, y) == spec_system_pallete(spec_colour_index(ppu, x, y))
}

/// Draws the background on `frame`.
pub fn render(ppu: &NesPPU, frame: &mut Frame)
    requires
        ppu@.wf(),
        old(frame).wf(),
        renderable(ppu@),
    ensures
        final(frame).wf(),
        forall|x: int, y: int|
            0 <= x < WIDTH && 0 <= y < HIGHT ==> #[trigger] drawn(*final(frame), ppu@, x, y),
{
    let bank = ppu.ctrl.bknd_pattern_addr();

    let mut i: usize = 0;
    while i < TILES
        invariant
            i <= TILES,
            ppu@.wf(),
            renderable(ppu@),
            frame.wf(),
            bank == ppu@.ctrl.spec_bknd_pattern_addr(),
            forall|x: int, y: int|
                0 <= x < WIDTH && 0 <= y < HIGHT && (y / 8) * 32 + x / 8 < i ==> #[trigger] drawn(
                    *frame,
                    ppu@,
                    x,
                    y,
                ),
        decreases TILES - i,
    {
        // the first nametable
        let tile = ppu.vram[i] as usize;
        let tile_column = i % 32;
        let tile_row = i / 32;
        let tile_start = bank as usize + tile * 16;
        assert(tile_start == spec_tile_start(ppu@, tile_column as int, tile_row as int));
        let palette = bg_pallette(ppu, tile_column, tile_row);

        let mut y: usize = 0;
        while y < 8
            invariant
                y <= 8,
                i < TILES,
                tile_column == i % 32,
                tile_row == i / 32,
                ppu@.wf(),
                renderable(ppu@),
                frame.wf(),
                tile_start == spec_tile_start(ppu@, tile_column as int, tile_row as int),
                tile_start + 15 < ppu@.chr.len(),
                palette@ == spec_bg_pallette(ppu@, tile_column as int, tile_row as int),
                forall|px: int, py: int|
                    0 <= px < WIDTH && 0 <= py < HIGHT && ((py / 8) * 32 + px / 8 < i || ((py / 8)
                        * 32 + px / 8 == i && py % 8 < y)) ==> #[trigger] drawn(
                        *frame,
                        ppu@,
                        px,
                        py,
                    ),
            decreases 8 - y,
        {
            let upper = ppu.chr_rom[tile_start + y];
            let lower = ppu.chr_rom[tile_start + y + 8];

            let mut x: usize = 0;
            while x < 8
                invariant
                    x <= 8,
                    y < 8,
                    i < TILES,
                    tile_column == i % 32,
                    tile_row == i / 32,
                    ppu@.wf(),
                    renderable(ppu@),
                    frame.wf(),
                    tile_start == spec_tile_start(ppu@, tile_column as int, tile_row as int),
                    upper == ppu@.chr[tile_start + y],
                    lower == ppu@.chr[tile_start + y + 8],
                    palette@ == spec_bg_pallette(ppu@, tile_column as int, tile_row as int),
                    forall|px: int, py: int|
                        0 <= px < WIDTH && 0 <= py < HIGHT && ((py / 8) * 32 + px / 8 < i || ((py
                            / 8) * 32 + px / 8 == i && (py % 8 < y || (py % 8 == y && px % 8
                            < x)))) ==> #[trigger] drawn(*frame, ppu@, px, py),
                decreases 8 - x,
            {
                let shift = (7 - x) as u8;
                let value = bit(upper, shift) * 2 + bit(lower, shift);
                let px = tile_column * 8 + x;
                let py = tile_row * 8 + y;
                assert(px / 8 == tile_column && px % 8 == x && py / 8 == tile_row && py % 8 == y);
                assert(value == spec_pixel_value(ppu@, px as int, py as int));
                assert(palette@[value as int] == spec_colour_index(ppu@, px as int, py as int));
                let rgb = system_pallete(palette[value as usize]);
                let ghost before = *frame;
                frame.set_pixel(px, py, rgb);
                proof {
                    lemma_set_pixel(before, px as int, py as int, rgb, *frame);
                    assert(drawn(*frame, ppu@, px as int, py as int));
                    assert forall|qx: int, qy: int|
                        0 <= qx < WIDTH && 0 <= qy < HIGHT && ((qy / 8) * 32 + qx / 8 < i || ((qy
                            / 8) * 32 + qx / 8 == i && (qy % 8 < y || (qy % 8 == y && qx % 8 < x
                            + 1)))) implies #[trigger] drawn(*frame, ppu@, qx, qy) by {
                        if qx == px && qy == py {
                        } else {
                            assert(frame.spec_pixel(qx, qy) == before.spec_pixel(qx, qy));
                            if (qy / 8) * 32 + qx / 8 == i && qy % 8 == y && qx % 8 == x {
                                assert(qx / 8 == tile_column && qy / 8 == tile_row);
                            }
                            assert(drawn(before, ppu@, qx, qy));
                        }
                    }
                }
                x += 1;
            }
            y += 1;
        }
        i += 1;
    }
}

} // verus!
