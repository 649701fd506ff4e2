//! Cartridge images in the iNES container format: a 16-byte header, an
//! optional 512-byte trainer, the program ROM and the character ROM.

use vstd::prelude::*;
use vstd::slice::{slice_subrange, slice_to_vec};
use vstd::string::*;

verus! {

/// Bytes in one page of program ROM.
pub const PRG_ROM_PAGE_SIZE: usize = 16384;

/// Bytes in one page of character ROM.
pub const CHR_ROM_PAGE_SIZE: usize = 8192;

/// Bytes in the header.
pub const HEADER_SIZE: usize = 16;

/// Bytes in a trainer, where there is one.
pub const TRAINER_SIZE: usize = 512;

/// How the cartridge mirrors the screen's name tables.
#[derive(Clone, Copy, Debug, PartialEq, Eq, Structural)]
#[allow(non_camel_case_types)]
pub enum Mirroring {
    /// The two name tables lie side by side.
    VERTICAL,
    /// The two name tables lie one above the other.
    HORIZONTAL,
}

/// What a cartridge image holds.
#[derive(Debug)]
pub struct Rom {
    /// The program ROM: the code that the processor runs.
    pub prg_rom: Vec<u8>,
    /// The character ROM: the graphics data.
    pub chr_rom: Vec<u8>,
    /// The number of the mapper that the cartridge needs.
    pub mapper: u8,
    /// How the cartridge mirrors the name tables.
    pub screen_mirroring: Mirroring,
}

/// What a cartridge image holds, as plain values.
pub struct RomImage {
    /// The program ROM.
    pub prg_rom: Seq<u8>,
    /// The character ROM.
    pub chr_rom: Seq<u8>,
    /// The mapper number.
    pub mapper: u8,
    /// The mirroring.
    pub screen_mirroring: Mirroring,
}

impl View for Rom {
    type V = RomImage;

    open spec fn view(&self) -> RomImage {
        RomImage {
            prg_rom: self.prg_rom@,
            chr_rom: self.chr_rom@,
            mapper: self.mapper,
            screen_mirroring: self.screen_mirroring,
        }
    }
}

/// Whether `raw` begins with a whole header that carries the format's tag:
/// the letters N, E, S and the byte 0x1A.
pub open spec fn has_ines_header(raw: Seq<u8>) -> bool {
    &&& raw.len() >= HEADER_SIZE
    &&& raw[0] == 0x4E
    &&& raw[1] == 0x45
    &&& raw[2] == 0x53
    &&& raw[3] == 0x1A
}

/// Whether the header marks the image as NES 2.0: bits 2 and 3 of byte 7
/// read binary 10.
pub open spec fn is_nes2(raw: Seq<u8>) -> bool {
    (raw[7] >> 2) & 0b11 == 0b10
}

/// Whether a trainer stands between header and program ROM: bit 2 of byte 6.
pub open spec fn has_trainer(raw: Seq<u8>) -> bool {
    raw[6] & 0b100 != 0
}

/// Where the program ROM begins.
pub open spec fn prg_rom_start(raw: Seq<u8>) -> int {
    HEADER_SIZE + if has_trainer(raw) {
        TRAINER_SIZE as int
    } else {
        0
    }
}

/// Bytes of program ROM: byte 4 counts its pages.
pub open spec fn prg_rom_size(raw: Seq<u8>) -> int {
    raw[4] * PRG_ROM_PAGE_SIZE
}

/// Bytes of character ROM: byte 5 counts its pages.
pub open spec fn chr_rom_size(raw: Seq<u8>) -> int {
    raw[5] * CHR_ROM_PAGE_SIZE
}

/// Bytes that an image with this header has at least.
pub open spec fn image_size(raw: Seq<u8>) -> int {
    prg_rom_start(raw) + prg_rom_size(raw) + chr_rom_size(raw)
}

/// The mapper number: its high four bits from byte 7, its low four from the
/// high four of byte 6.
pub open spec fn mapper_of(raw: Seq<u8>) -> u8 {
    (raw[7] & 0b1111_0000) | (raw[6] >> 4)
}

/// The mirroring: bit 0 of byte 6, set for vertical.
pub open spec fn mirroring_of(raw: Seq<u8>) -> Mirroring {
    if raw[6] & 0b1 != 0 {
        Mirroring::VERTICAL
    } else {
        Mirroring::HORIZONTAL
    }
}

/// What loading `raw` comes to: the contents of the image, or the message
/// that says why it cannot be loaded.
pub open spec fn load_result(raw: Seq<u8>) -> Result<RomImage, Seq<char>> {
    if !has_ines_header(raw) {
        Err("File is not in iNES file format"@)
    } else if is_nes2(raw) {
        Err("only iNES1.0 format is supported!"@)
    } else if raw.len() < image_size(raw) {
        Err("File is shorter than its header says"@)
    } else {
        let prg_start = prg_rom_start(raw);
        let chr_start = prg_start + prg_rom_size(raw);
        Ok(
            RomImage {
                prg_rom: raw.subrange(prg_start, chr_start),
                chr_rom: raw.subrange(chr_start, chr_start + chr_rom_size(raw)),
                mapper: mapper_of(raw),
                screen_mirroring: mirroring_of(raw),
            },
        )
    }
}

/// A loaded image or a message, as plain values.
pub open spec fn result_view(r: Result<Rom, String>) -> Result<RomImage, Seq<char>> {
    match r {
        Ok(rom) => Ok(rom@),
        Err(message) => Err(message@),
    }
}

impl Rom {
    /// Loads a cartridge image from the bytes of an iNES file.
    pub fn new(raw: &Vec<u8>) -> (r: Result<Rom, String>)
        ensures
            result_view(r) == load_result(raw@),
    {
        if raw.len() < HEADER_SIZE || raw[0] != 0x4E || raw[1] != 0x45 || raw[2] != 0x53 || raw[3]
            != 0x1A {
            return Err(String::from_str("File is not in iNES file format"));
        }
        let mapper = (raw[7] & 0b1111_0000) | (raw[6] >> 4);
        let ines_ver = (raw[7] >> 2) & 0b11;
        if ines_ver == 0b10 {
            return Err(String::from_str("only iNES1.0 format is supported!"));
        }
        let screen_mirroring = if raw[6] & 0b1 != 0 {
            Mirroring::VERTICAL
        } else {
            Mirroring::HORIZONTAL
        };
        let prg_rom_size = raw[4] as usize * PRG_ROM_PAGE_SIZE;
        let chr_rom_size = raw[5] as usize * CHR_ROM_PAGE_SIZE;
        let skip_trainer = raw[6] & 0b100 != 0;
        let prg_rom_start = HEADER_SIZE + if skip_trainer {
            TRAINER_SIZE
        } else {
            0
        };
        let chr_rom_start = prg_rom_start + prg_rom_size;
        if raw.len() < chr_rom_start + chr_rom_size {
            return Err(String::from_str("File is shorter than its header says"));
        }
        Ok(
            Rom {
                prg_rom: slice_to_vec(slice_subrange(raw.as_slice(), prg_rom_start, chr_rom_start)),
                chr_rom: slice_to_vec(
                    slice_subrange(raw.as_slice(), chr_rom_start, chr_rom_start + chr_rom_size),
                ),
                mapper,
                screen_mirroring,
            },
        )
    }
}

/// The parts of a cartridge image, for putting one together.
pub struct TestRom {
    /// The 16 bytes of the header.
    pub header: Vec<u8>,
    /// The trainer, where the image has one.
    pub trainer: Option<Vec<u8>>,
    /// The program ROM.
    pub pgp_rom: Vec<u8>,
    /// The character ROM.
    pub chr_rom: Vec<u8>,
}

/// The bytes of the trainer, where the parts have one.
pub open spec fn trainer_bytes(trainer: Option<Vec<u8>>) -> Seq<u8> {
    match trainer {
        Some(t) => t@,
        None => Seq::empty(),
    }
}

/// Puts the parts of an image together in the order of the file format.
pub fn create_rom(rom: TestRom) -> (result: Vec<u8>)
    ensures
        result@ == rom.header@ + trainer_bytes(rom.trainer) + rom.pgp_rom@ + rom.chr_rom@,
{
    let TestRom { header, trainer, pgp_rom, chr_rom } = rom;
    let mut header = header;
    let mut pgp_rom = pgp_rom;
    let mut chr_rom = chr_rom;
    let mut result: Vec<u8> = Vec::new();
    result.append(&mut header);
    if let Some(t) = trainer {
        let mut t = t;
        result.append(&mut t);
    }
    result.append(&mut pgp_rom);
    result.append(&mut chr_rom);
    result
}

/// `count` bytes of the same `value`.
pub open spec fn repeated(value: u8, count: nat) -> Seq<u8> {
    Seq::new(count, |i: int| value)
}

/// A vector of `count` bytes of the same `value`.
pub fn filled(value: u8, count: usize) -> (v: Vec<u8>)
    ensures
        v@ == repeated(value, count as nat),
{
    let mut v: Vec<u8> = Vec::new();
    while v.len() < count
        invariant
            v@.len() <= count,
            v@ == repeated(value, v@.len()),
        decreases count - v@.len(),
    {
        v.push(value);
    }
    v
}

/// A small well-formed image: two pages of program ROM full of ones and one
/// page of character ROM full of twos, for mapper 3, mirrored vertically.
pub fn create_test_rom() -> (rom: Rom)
    ensures
        rom@ == (RomImage {
            prg_rom: repeated(1, 2 * PRG_ROM_PAGE_SIZE as nat),
            chr_rom: repeated(2, CHR_ROM_PAGE_SIZE as nat),
            mapper: 3,
            screen_mirroring: Mirroring::VERTICAL,
        }),
{
    let header: Vec<u8> = vec![
        0x4E, 0x45, 0x53, 0x1A, 0x02, 0x01, 0x31, 0, 0, 0, 0, 0, 0, 0, 0, 0,
    ];
    let pgp_rom = filled(1, 2 * PRG_ROM_PAGE_SIZE);
    let chr_rom = filled(2, 1 * CHR_ROM_PAGE_SIZE);
    let test_rom = create_rom(TestRom { header, trainer: None, pgp_rom, chr_rom });
    let ghost raw = test_rom@;
    proof {
        assert((0u8 >> 2) & 0b11 != 0b10) by (bit_vector);
        assert(0x31u8 & 0b100 == 0) by (bit_vector);
        assert(0x31u8 & 0b1 != 0) by (bit_vector);
        assert((0u8 & 0b1111_0000) | (0x31u8 >> 4) == 3) by (bit_vector);
        assert(raw.subrange(16, 32784) =~= repeated(1, 2 * PRG_ROM_PAGE_SIZE as nat));
        assert(raw.subrange(32784, 40976) =~= repeated(
            2,
            CHR_ROM_PAGE_SIZE as nat,
        ));
    }
    Rom::new(&test_rom).unwrap()
}

} // verus!
