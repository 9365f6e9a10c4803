//! Cartridge images in the iNES container format.

use vstd::prelude::*;

verus! {

/// Size in bytes of one PRG-ROM page.
pub const PRG_ROM_PAGE_SIZE: usize = 16384;

/// Size in bytes of one CHR-ROM page.
pub const CHR_ROM_PAGE_SIZE: usize = 8192;

/// Size in bytes of the iNES header.
pub const HEADER_SIZE: usize = 16;

/// Size in bytes of the optional trainer block that follows the header.
pub const TRAINER_SIZE: usize = 512;

/// How the four logical nametables are folded onto the console's 2 KB of
/// video RAM.
#[derive(Clone, Copy, Debug, PartialEq, Eq, Structural)]
#[allow(non_camel_case_types)]
pub enum Mirroring {
    VERTICAL,
    HORIZONTAL,
    FOUR_SCREEN,
}

/// The contents of a cartridge, as read from an iNES image.
pub struct Rom {
    pub prg_rom: Vec<u8>,
    pub chr_rom: Vec<u8>,
    pub mapper: u8,
    pub screen_mirroring: Mirroring,
    pub is_chr_ram: bool,
}

/// The image is long enough to hold a header and starts with the tag
/// `N E S 0x1A`.
pub open spec fn has_ines_tag(raw: Seq<u8>) -> bool {
    &&& raw.len() >= HEADER_SIZE
    &&& raw[0] == 0x4e
    &&& raw[1] == 0x45
    &&& raw[2] == 0x53
    &&& raw[3] == 0x1a
}

/// The format version held in bits 2 and 3 of header byte 7.
pub open spec fn ines_version(raw: Seq<u8>) -> u8 {
    (raw[7] >> 2) & 0b0000_0011
}

/// The mapper id: high nibble of byte 7 over the high nibble of byte 6.
pub open spec fn ines_mapper(raw: Seq<u8>) -> u8 {
    (raw[7] & 0b1111_0000) | (raw[6] >> 4)
}

/// The mirroring mode of header byte 6: four-screen (bit 3) overrides
/// vertical (bit 0).
pub open spec fn ines_mirroring(raw: Seq<u8>) -> Mirroring {
    if raw[6] & 0b0000_1000 != 0 {
        Mirroring::FOUR_SCREEN
    } else if raw[6] & 0b0000_0001 != 0 {
        Mirroring::VERTICAL
    } else {
        Mirroring::HORIZONTAL
    }
}

/// Number of PRG-ROM bytes the header announces.
pub open spec fn ines_prg_len(raw: Seq<u8>) -> int {
    raw[4] * PRG_ROM_PAGE_SIZE
}

/// Number of CHR-ROM bytes the header announces; zero stands for CHR-RAM.
pub open spec fn ines_chr_len(raw: Seq<u8>) -> int {
    raw[5] * CHR_ROM_PAGE_SIZE
}

/// Offset of the first PRG-ROM byte: after the header, and after the trainer
/// when bit 2 of byte 6 announces one.
pub open spec fn ines_prg_start(raw: Seq<u8>) -> int {
    HEADER_SIZE + if raw[6] & 0b0000_0100 != 0 {
        TRAINER_SIZE as int
    } else {
        0
    }
}

/// Offset of the first CHR-ROM byte.
pub open spec fn ines_chr_start(raw: Seq<u8>) -> int {
    ines_prg_start(raw) + ines_prg_len(raw)
}

/// The image holds every byte its header announces.
pub open spec fn ines_complete(raw: Seq<u8>) -> bool {
    ines_chr_start(raw) + ines_chr_len(raw) <= raw.len()
}

/// The image can be loaded.
pub open spec fn ines_loadable(raw: Seq<u8>) -> bool {
    has_ines_tag(raw) && ines_version(raw) == 0 && ines_complete(raw)
}

/// The message reported for an image that cannot be loaded.
pub open spec fn ines_error(raw: Seq<u8>) -> Seq<char> {
    if !has_ines_tag(raw) {
        "File is not iNES format"@
    } else if ines_version(raw) != 0 {
        "iNES 2.0 isn't supported"@
    } else {
        "iNES image is truncated"@
    }
}

/// A copy of `len` bytes of `src`, starting at `start`.
fn copy_range(src: &Vec<u8>, start: usize, len: usize) -> (out: Vec<u8>)
    requires
        start + len <= src.len(),
    ensures
        out@ == src@.subrange(start as int, start + len),
{
    let mut out: Vec<u8> = Vec::with_capacity(len);
    let mut i: usize = 0;
    while i < len
        invariant
            i <= len,
            start + len <= src.len(),
            out@ == src@.subrange(start as int, start + i),
        decreases len - i,
    {
        out.push(src[start + i]);
        i += 1;
    }
    out
}

impl Rom {
    /// The cartridge is described by the image `raw`.
    pub open spec fn spec_parsed_from(&self, raw: Seq<u8>) -> bool {
        &&& self.prg_rom@ == raw.subrange(ines_prg_start(raw), ines_chr_start(raw))
        &&& self.mapper == ines_mapper(raw)
        &&& self.screen_mirroring == ines_mirroring(raw)
        &&& self.is_chr_ram == (ines_chr_len(raw) == 0)
        &&& if ines_chr_len(raw) == 0 {
            self.chr_rom@ == Seq::new(CHR_ROM_PAGE_SIZE as nat, |i: int| 0u8)
        } else {
            self.chr_rom@ == raw.subrange(
                ines_chr_start(raw),
                ines_chr_start(raw) + ines_chr_len(raw),
            )
        }
    }

    /// Reads a cartridge from an iNES image.
    ///
    /// Succeeds exactly on the loadable images. An image without the tag
    /// (or too short to hold a header), of a later format version, or
    /// shorter than its header announces is refused with a message.
    pub fn new(raw: &Vec<u8>) -> (r: Result<Rom, String>)
        ensures
            r is Ok <==> ines_loadable(raw@),
            r matches Ok(rom) ==> rom.spec_parsed_from(raw@),
            r matches Err(msg) ==> msg@ == ines_error(raw@),
    {
        if raw.len() < HEADER_SIZE || raw[0] != 0x4e || raw[1] != 0x45 || raw[2] != 0x53 || raw[3]
            != 0x1a {
            return Err("File is not iNES format".to_string());
        }
        let mapper = (raw[7] & 0b1111_0000) | (raw[6] >> 4);

        let ines_ver = (raw[7] >> 2) & 0b0000_0011;
        if ines_ver != 0 {
            return Err("iNES 2.0 isn't supported".to_string());
        }
        let four_screen = raw[6] & 0b0000_1000 != 0;
        let vertical_mirroring = raw[6] & 0b0000_0001 != 0;
        let screen_mirroring = if four_screen {
            Mirroring::FOUR_SCREEN
        } else if vertical_mirroring {
            Mirroring::VERTICAL
        } else {
            Mirroring::HORIZONTAL
        };

        let prg_rom_size: usize = raw[4] as usize * PRG_ROM_PAGE_SIZE;
        let chr_rom_size: usize = raw[5] as usize * CHR_ROM_PAGE_SIZE;

        let skip_trainer = raw[6] & 0b0000_0100 != 0;

        let prg_rom_start: usize = HEADER_SIZE + if skip_trainer {
            TRAINER_SIZE
        } else {
            0
        };
        let chr_rom_start: usize = prg_rom_start + prg_rom_size;

        if raw.len() < chr_rom_start + chr_rom_size {
            return Err("iNES image is truncated".to_string());
        }
        let prg_rom = copy_range(raw, prg_rom_start, prg_rom_size);
        if chr_rom_size == 0 {
            let chr_rom: Vec<u8> = vec![0u8; CHR_ROM_PAGE_SIZE];
            assert(chr_rom@ =~= Seq::new(CHR_ROM_PAGE_SIZE as nat, |i: int| 0u8));
            Ok(Rom { prg_rom, chr_rom, mapper, screen_mirroring, is_chr_ram: true })
        } else {
            let chr_rom = copy_range(raw, chr_rom_start, chr_rom_size);
            Ok(Rom { prg_rom, chr_rom, mapper, screen_mirroring, is_chr_ram: false })
        }
    }
}

} // verus!
