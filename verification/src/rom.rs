use vstd::prelude::*;
use crate::text::push_char;

verus! {

/// 8 KB
pub const CHR_ROM_SIZE: usize = 0x2000;

/// 16 KB
pub const PRG_ROM_SIZE: usize = 0x4000;

#[derive(Clone, Copy, Debug, PartialEq, Eq)]
pub enum Mirroring {
    Vertical,
    Horizontal,
    FourScreen,
    SingleScreen,
    ScreenA,
    ScreenB,
}

impl Default for Mirroring {
    fn default() -> (r: Self)
        ensures
            r == Mirroring::Vertical,
    {
        Mirroring::Vertical
    }
}

#[derive(Clone, Debug)]
pub struct Header {
    /// 16 KB units
    pub prg_rom_count: usize,
    /// 8 KB units (0 means the board uses CHR RAM)
    pub chr_rom_count: usize,
    /// Memory backed ram at $6000-$7FFF
    pub battery_backed_ram: bool,
    /// Byte trainer at $7000-$71FF
    pub byte_trainer: bool,
    pub four_screen_mirroring: bool,
    pub mapper_number: u8,
    pub mirroring: Mirroring,
}

impl Default for Header {
    fn default() -> (r: Self)
        ensures
            r.prg_rom_count == 0,
            r.chr_rom_count == 0,
            r.mapper_number == 0,
            r.mirroring == Mirroring::Vertical,
    {
        Header {
            prg_rom_count: 0,
            chr_rom_count: 0,
            battery_backed_ram: false,
            byte_trainer: false,
            four_screen_mirroring: false,
            mapper_number: 0,
            mirroring: Mirroring::Vertical,
        }
    }
}

#[derive(Clone)]
pub struct Rom {
    pub header: Header,
    pub prg_rom: Vec<u8>,
    pub chr_rom: Vec<u8>,
    pub mapper: u8,
    pub checksum: String,
}

/// The mapper number held in bytes 6 and 7 of an iNES header.
pub open spec fn mapper_of(byte6: u8, byte7: u8) -> u8 {
    ((byte6 & 0xf0) >> 4) | (byte7 & 0xf0)
}

/// The nametable arrangement that byte 6 of an iNES header selects.
pub open spec fn mirroring_of(byte6: u8) -> Mirroring {
    if byte6 & 0x08 != 0 {
        Mirroring::FourScreen
    } else if byte6 & 0x01 != 0 {
        Mirroring::Vertical
    } else {
        Mirroring::Horizontal
    }
}

/// An iNES image that can be read: the magic number, and every CHR byte the header
/// announces present (a short PRG section is accepted and truncated).
pub open spec fn readable_nes_image(buffer: Seq<u8>) -> bool {
    &&& buffer.len() >= 16
    &&& buffer[0] == 0x4e && buffer[1] == 0x45 && buffer[2] == 0x53 && buffer[3] == 0x1a
    &&& buffer[5] > 0 ==> buffer.len() >= 16 + buffer[4] * PRG_ROM_SIZE + buffer[5] * CHR_ROM_SIZE
}

/// Whether `buffer` is an iNES image that `Rom::read_nes_bytes` can read.
pub fn is_nes_image(buffer: &[u8]) -> (r: bool)
    ensures
        r == readable_nes_image(buffer@),
{
    if buffer.len() < 16 {
        return false;
    }
    if !(buffer[0] == 0x4e && buffer[1] == 0x45 && buffer[2] == 0x53 && buffer[3] == 0x1a) {
        return false;
    }
    if buffer[5] > 0 {
        let prg = buffer[4] as u128;
        let chr = buffer[5] as u128;
        assert(prg * 0x4000 <= 255 * 0x4000 && chr * 0x2000 <= 255 * 0x2000) by (nonlinear_arith)
            requires
                prg <= 255,
                chr <= 255,
        ;
        (buffer.len() as u128) >= 16 + prg * 0x4000 + chr * 0x2000
    } else {
        true
    }
}

/// The mapper number of an iNES file from its first bytes; 0 when fewer than 8 bytes.
pub fn mapper_number_from_header(bytes: &[u8]) -> (r: u8)
    ensures
        bytes@.len() >= 8 ==> r == mapper_of(bytes@[6], bytes@[7]),
        bytes@.len() < 8 ==> r == 0,
{
    if bytes.len() >= 8 {
        ((bytes[6] & 0xf0) >> 4) | (bytes[7] & 0xf0)
    } else {
        0
    }
}

impl Default for Rom {
    fn default() -> (r: Self)
        ensures
            r.prg_rom@ == Seq::new(0x8000, |i: int| 0u8),
            r.chr_rom@ == Seq::new(0x2000, |i: int| 0u8),
            r.mapper == 0,
            r.header.mirroring == Mirroring::Vertical,
            r.checksum@.len() == 0,
    {
        let prg_rom = vec![0u8; 0x8000];
        let chr_rom = vec![0u8; 0x2000];
        assert(prg_rom@ =~= Seq::new(0x8000, |i: int| 0u8));
        assert(chr_rom@ =~= Seq::new(0x2000, |i: int| 0u8));
        Rom { header: Header::default(), prg_rom, chr_rom, mapper: 0, checksum: String::new() }
    }
}

impl Rom {
    /// Decodes an iNES image: the 16-byte header, then the PRG banks (truncated to what
    /// the buffer holds), then the CHR banks, or 8 KB of zeroed CHR RAM when the header
    /// announces none.
    pub fn read_nes_bytes(buffer: &[u8]) -> (r: Rom)
        requires
            readable_nes_image(buffer@),
        ensures
            r.header.prg_rom_count == buffer@[4],
            r.header.chr_rom_count == buffer@[5],
            r.header.battery_backed_ram == (buffer@[6] & 0x02 != 0),
            r.header.byte_trainer == (buffer@[6] & 0x04 != 0),
            r.header.four_screen_mirroring == (buffer@[6] & 0x08 != 0),
            r.header.mapper_number == mapper_of(buffer@[6], buffer@[7]),
            r.header.mirroring == mirroring_of(buffer@[6]),
            r.mapper == mapper_of(buffer@[6], buffer@[7]),
            r.prg_rom@ == buffer@.subrange(16, 16 + vstd::math::min(
                buffer@[4] * PRG_ROM_SIZE, buffer@.len() - 16)),
            buffer@[5] > 0 ==> r.chr_rom@ == buffer@.subrange(
                16 + buffer@[4] * PRG_ROM_SIZE, 16 + buffer@[4] * PRG_ROM_SIZE + buffer@[5] * CHR_ROM_SIZE),
            buffer@[5] == 0 ==> r.chr_rom@ == Seq::new(CHR_ROM_SIZE as nat, |i: int| 0u8),
            r.checksum@.len() == 0,
    {
        let byte6 = buffer[6];
        let byte7 = buffer[7];
        let mapper_number = ((byte6 & 0xf0) >> 4) | (byte7 & 0xf0);
        let vertical_mirroring = byte6 & 0x01 != 0;
        let four_screen = byte6 & 0x08 != 0;
        let mirroring = if four_screen {
            Mirroring::FourScreen
        } else if vertical_mirroring {
            Mirroring::Vertical
        } else {
            Mirroring::Horizontal
        };
        let header = Header {
            prg_rom_count: buffer[4] as usize,
            chr_rom_count: buffer[5] as usize,
            battery_backed_ram: byte6 & 0x02 != 0,
            byte_trainer: byte6 & 0x04 != 0,
            four_screen_mirroring: four_screen,
            mapper_number,
            mirroring,
        };
        let prg_size = header.prg_rom_count * PRG_ROM_SIZE;
        let chr_size = header.chr_rom_count * CHR_ROM_SIZE;
        let available = buffer.len() - 0x10;
        let size = if prg_size < available { prg_size } else { available };

        let mut prg_rom: Vec<u8> = Vec::with_capacity(size);
        let mut i: usize = 0;
        while i < size
            invariant
                i <= size,
                16 + size <= buffer@.len(),
                buffer@.len() <= usize::MAX,
                prg_rom@ == buffer@.subrange(16, 16 + i as int),
            decreases size - i,
        {
            prg_rom.push(buffer[i + 0x10]);
            i += 1;
        }

        let mut chr_rom: Vec<u8> = Vec::with_capacity(CHR_ROM_SIZE);
        let chr_rom_offset = 0x10 + prg_size;
        if chr_size > 0 {
            let mut j: usize = 0;
            while j < chr_size
                invariant
                    j <= chr_size,
                    chr_rom_offset + chr_size <= buffer@.len(),
                    buffer@.len() <= usize::MAX,
                    chr_rom@ == buffer@.subrange(chr_rom_offset as int, chr_rom_offset + j),
                decreases chr_size - j,
            {
                chr_rom.push(buffer[chr_rom_offset + j]);
                j += 1;
            }
        } else {
            let mut j: usize = 0;
            while j < CHR_ROM_SIZE
                invariant
                    j <= CHR_ROM_SIZE,
                    chr_rom@ == Seq::new(j as nat, |k: int| 0u8),
                decreases CHR_ROM_SIZE - j,
            {
                chr_rom.push(0);
                j += 1;
            }
        }
        Rom { header, chr_rom, prg_rom, mapper: mapper_number, checksum: String::new() }
    }
}

/// Row `i` of a tile dump: `.` for a zero byte, `*` otherwise, then a line break.
pub open spec fn tile_row(table: Seq<u8>, i: int) -> Seq<char> {
    Seq::new(8, |j: int| if table[i * 8 + j] == 0 { '.' } else { '*' }) + seq!['\n']
}

/// The first `n` rows of a tile dump.
pub open spec fn tile_rows(table: Seq<u8>, n: nat) -> Seq<char>
    decreases n,
{
    if n == 0 {
        seq![]
    } else {
        tile_rows(table, (n - 1) as nat) + tile_row(table, n - 1)
    }
}

/// The 8x8 tile held one byte a pixel in `table`, as text.
pub fn display_character(table: &[u8]) -> (r: String)
    requires
        table@.len() >= 64,
    ensures
        r@ == tile_rows(table@, 8),
{
    let mut s = String::new();
    let mut i: usize = 0;
    while i < 8
        invariant
            i <= 8,
            table@.len() >= 64,
            s@ == tile_rows(table@, i as nat),
        decreases 8 - i,
    {
        let ghost base = s@;
        let mut j: usize = 0;
        while j < 8
            invariant
                j <= 8,
                i < 8,
                table@.len() >= 64,
                s@ == base + Seq::new(j as nat, |k: int| if table@[i * 8 + k] == 0 { '.' } else { '*' }),
            decreases 8 - j,
        {
            if table[i * 8 + j] == 0 {
                push_char(&mut s, '.');
            } else {
                push_char(&mut s, '*');
            }
            assert(Seq::new((j + 1) as nat, |k: int| if table@[i * 8 + k] == 0 { '.' } else { '*' }) =~= Seq::new(
                j as nat,
                |k: int| if table@[i * 8 + k] == 0 { '.' } else { '*' },
            ).push(if table@[i * 8 + j] == 0 { '.' } else { '*' }));
            j = j + 1;
        }
        push_char(&mut s, '\n');
        assert(s@ =~= tile_rows(table@, (i + 1) as nat));
        i = i + 1;
    }
    s
}

} // verus!
