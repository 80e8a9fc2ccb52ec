use vstd::prelude::*;
use crate::mappers::mapper::Mapper;
use crate::mappers::mapper0::Mapper0;
use crate::mappers::mapper19::Mapper19;
use crate::mappers::mapper_axrom::MapperAxRom;
use crate::mappers::mapper_cnrom::MapperCNRom;
use crate::mappers::mapper_config::{MapperConfig, is_bank_size, MAX_CHR_SIZE, MAX_PRG_SIZE};
use crate::mappers::mapper_gxrom::MapperGxRom;
use crate::mappers::mapper_mmc1::MapperMMC1;
use crate::mappers::mapper_mmc2::MapperMMC2;
use crate::mappers::mapper_mmc3::MapperMMC3;
use crate::mappers::mapper_uxrom::MapperUxROM;
use crate::nes_memory::NesMemory;
use crate::rom::{Mirroring, Rom, CHR_ROM_SIZE};

verus! {

/// Size of the PPU address space backing the nametables of four-screen boards.
pub const VRAM_SIZE: usize = 0x4000;

/// Which nametable memory an address reaches.
#[derive(Debug, PartialEq, Eq, Clone, Copy)]
pub enum VramType {
    VramA,
    VramB,
    Vram,
}

/// A ROM that the board it names can run: a supported mapper number, sizes that an
/// iNES header can announce, CHR in whole 8 KB banks, and enough PRG for the board's
/// fixed banks.
pub open spec fn supported_rom(rom: Rom) -> bool {
    let prg = rom.prg_rom@.len();
    let chr = rom.chr_rom@.len();
    &&& prg <= MAX_PRG_SIZE
    &&& chr <= MAX_CHR_SIZE
    &&& chr >= CHR_ROM_SIZE
    &&& chr % 0x2000 == 0
    &&& rom.header.mirroring != Mirroring::SingleScreen
    &&& match rom.mapper {
        0 => prg == 0x4000 || prg >= 0x8000,
        1 => prg >= 0x8000,
        2 => prg >= 0x8000,
        3 => prg >= 0x8000,
        4 => prg >= 0x8000,
        7 => prg >= 0x8000,
        9 => prg >= 0x8000,
        19 => 0x8000 <= prg <= 255 * 0x2000,
        66 => prg >= 0x8000,
        _ => false,
    }
}

/// Whether a board can run `rom` (see `supported_rom`).
pub fn supports(rom: &Rom) -> (r: bool)
    ensures
        r == supported_rom(*rom),
{
    let prg = rom.prg_rom.len();
    let chr = rom.chr_rom.len();
    if prg > MAX_PRG_SIZE || chr > MAX_CHR_SIZE || chr < CHR_ROM_SIZE || chr % 0x2000 != 0 {
        return false;
    }
    if let Mirroring::SingleScreen = rom.header.mirroring {
        return false;
    }
    match rom.mapper {
        0 => prg == 0x4000 || prg >= 0x8000,
        1 | 3 | 4 | 7 | 9 | 66 => prg >= 0x8000,
        2 => prg >= 0x8000,
        19 => 0x8000 <= prg && prg <= 255 * 0x2000,
        _ => false,
    }
}

/// The cartridge: the board with its registers, the shared bank configuration, PRG ROM,
/// CHR ROM/RAM, work RAM below $8000 and the console's nametable RAM.
pub struct MapperBase {
    pub mapper: Mapper,
    pub config: MapperConfig,
    pub chr_ram: Vec<u8>,
    pub prg_rom: Vec<u8>,
    pub wram: Vec<u8>,
    pub prg_bank_mask: usize,
    pub chr_bank_mask: usize,
    pub vram: Vec<u8>,
    pub vram_a: Vec<u8>,
    pub vram_b: Vec<u8>,
}

impl MapperBase {
    pub open spec fn wf(self) -> bool {
        &&& self.mapper.wf_with(self.config)
        &&& self.prg_rom@.len() == self.config.total_prg_rom_size
        &&& self.chr_ram@.len() == self.config.total_chr_rom_size
        &&& self.chr_ram@.len() >= 0x2000
        &&& self.wram@.len() == 0x8000
        &&& self.vram@.len() == VRAM_SIZE
        &&& self.vram_a@.len() == 0x400
        &&& self.vram_b@.len() == 0x400
        &&& self.config.mirroring != Mirroring::SingleScreen
    }

    /// The byte a CPU read of PRG space gives (work RAM below $8000).
    pub open spec fn prg_byte(self, address: u16) -> u8 {
        if self.config.is_custom_prg {
            if address >= 0x8000 {
                match self.mapper {
                    Mapper::Mmc1(m) => crate::mappers::mapper_mmc1::mmc1_prg_byte(m, address),
                    _ => 0,
                }
            } else {
                self.wram@[address as int]
            }
        } else if address >= 0x8000 {
            self.prg_rom@[bank_index(0x7fff, address, self.config.prg_bank_size_bit,
                self.config.prg_banks@)]
        } else {
            self.wram@[address as int]
        }
    }

    fn mapper_number_to_mapper(rom: &Rom, config: &mut MapperConfig) -> (r: Mapper)
        requires
            supported_rom(*rom),
            old(config).sizes_wf(),
            old(config).banks_zero(),
            old(config).total_prg_rom_size == rom.prg_rom@.len(),
            old(config).total_chr_rom_size == rom.chr_rom@.len(),
            old(config).mirroring == rom.header.mirroring,
            !old(config).is_custom_chr && !old(config).is_custom_prg && !old(config).is_custom_nametable,
            old(config).prg_bank_size == 0x8000,
            old(config).chr_bank_size == 0x2000,
        ensures
            r.wf_with(*final(config)),
            final(config).total_prg_rom_size == rom.prg_rom@.len(),
            final(config).total_chr_rom_size == rom.chr_rom@.len(),
            final(config).mirroring != Mirroring::SingleScreen,
    {
        let m = rom.mapper;
        if m == 0 {
            Mapper::Nrom(Mapper0::new(rom, config))
        } else if m == 1 {
            Mapper::Mmc1(MapperMMC1::new(rom, config))
        } else if m == 2 {
            Mapper::UxRom(MapperUxROM::new(rom, config))
        } else if m == 3 {
            Mapper::CnRom(MapperCNRom::new(rom, config))
        } else if m == 4 {
            Mapper::Mmc3(MapperMMC3::new(rom, config))
        } else if m == 7 {
            let r = Mapper::AxRom(MapperAxRom::new(rom, config));
            assert(config.prg_count() >= 1);
            r
        } else if m == 9 {
            Mapper::Mmc2(MapperMMC2::new(rom, config))
        } else if m == 19 {
            Mapper::Namco163(Mapper19::new(rom, config))
        } else {
            let r = Mapper::GxRom(MapperGxRom::new(rom, config));
            assert(config.prg_count() >= 1);
            r
        }
    }

    pub fn new(rom: &Rom) -> (r: Self)
        requires
            supported_rom(*rom),
        ensures
            r.wf(),
            r.prg_rom@ == rom.prg_rom@,
            r.chr_ram@ == rom.chr_rom@,
            forall|i: int| 0 <= i < 0x4000 ==> #[trigger] r.wram@[i] == 0,
            forall|i: int| 0x4000 <= i < 0x8000 ==> #[trigger] r.wram@[i] == (i / 256) as u8,
    {
        let mut config = MapperConfig::new(rom);
        let mapper = Self::mapper_number_to_mapper(rom, &mut config);
        let prg_bank_mask = config.prg_bank_size - 1;
        let chr_bank_mask = config.chr_bank_size - 1;

        let mut wram: Vec<u8> = vec![0u8; 0x8000];
        let mut i: usize = 0x4000;
        while i < 0x8000
            invariant
                0x4000 <= i <= 0x8000,
                wram@.len() == 0x8000,
                forall|j: int| 0 <= j < 0x4000 ==> #[trigger] wram@[j] == 0,
                forall|j: int| 0x4000 <= j < i ==> #[trigger] wram@[j] == (j / 256) as u8,
                forall|j: int| i <= j < 0x8000 ==> #[trigger] wram@[j] == 0,
            decreases 0x8000 - i,
        {
            wram.set(i, (i / 256) as u8);
            i += 1;
        }
        Self {
            mapper,
            config,
            prg_rom: rom.prg_rom.clone(),
            chr_ram: rom.chr_rom.clone(),
            prg_bank_mask,
            chr_bank_mask,
            vram: vec![0u8; VRAM_SIZE],
            vram_a: vec![0u8; 0x400],
            vram_b: vec![0u8; 0x400],
            wram,
        }
    }

    /// PPU pattern-table read ($0000-$1FFF), through the board when it maps CHR itself.
    pub fn read_chr(&mut self, address: u16) -> (r: u8)
        requires
            old(self).wf(),
            address < 0x2000,
        ensures
            final(self).wf(),
            final(self).chr_ram == old(self).chr_ram,
            final(self).prg_rom == old(self).prg_rom,
            final(self).wram == old(self).wram,
            final(self).vram == old(self).vram,
            final(self).vram_a == old(self).vram_a,
            final(self).vram_b == old(self).vram_b,
            final(self).config.mirroring == old(self).config.mirroring,
            final(self).config.is_custom_nametable == old(self).config.is_custom_nametable,
            !old(self).config.on_read_chr_hook && !old(self).config.is_custom_chr ==>
                r == old(self).chr_ram@[bank_index(0x1fff, address, old(self).config.chr_bank_size_bit,
                    old(self).config.chr_banks@)] && *final(self) == *old(self),
    {
        if self.config.on_read_chr_hook {
            self.mapper.on_read_chr(address, &mut self.config);
        }
        if self.config.is_custom_chr {
            self.read_chr_mapper(address)
        } else {
            self.read_chr_direct(address)
        }
    }

    /// Nametable read ($2000-$2FFF) through the board's mirroring.
    pub fn read_nametable(&self, address: usize) -> (r: u8)
        requires
            self.wf(),
            0x2000 <= address < 0x3000,
        ensures
            !self.config.is_custom_nametable ==> r == match NesMemory::nametable_of(self.config.mirroring, address) {
                VramType::VramA => self.vram_a@[(address % 0x400) as int],
                VramType::VramB => self.vram_b@[(address % 0x400) as int],
                VramType::Vram => self.vram@[address as int],
            },
    {
        if self.config.is_custom_nametable {
            self.mapper.read_nametable(address)
        } else {
            let t = self.nametable_mirroring(address);
            proof {
                crate::bit_facts::lemma_usize_masks();
                assert(address & 0x3ff == address % 0x400);
            }
            match t {
                VramType::VramA => self.vram_a[address & 0x3ff],
                VramType::VramB => self.vram_b[address & 0x3ff],
                VramType::Vram => self.vram[address],
            }
        }
    }

    /// Nametable write ($2000-$2FFF) through the board's mirroring.
    pub fn write_nametable(&mut self, address: usize, value: u8)
        requires
            old(self).wf(),
            0x2000 <= address < 0x3000,
        ensures
            final(self).wf(),
            final(self).chr_ram == old(self).chr_ram,
            final(self).config == old(self).config,
            final(self).wram == old(self).wram,
            final(self).prg_rom == old(self).prg_rom,
            !old(self).config.is_custom_nametable ==> match NesMemory::nametable_of(old(self).config.mirroring, address) {
                VramType::VramA => final(self).vram_a@ == old(self).vram_a@.update((address % 0x400) as int, value)
                    && final(self).vram_b == old(self).vram_b && final(self).vram == old(self).vram,
                VramType::VramB => final(self).vram_b@ == old(self).vram_b@.update((address % 0x400) as int, value)
                    && final(self).vram_a == old(self).vram_a && final(self).vram == old(self).vram,
                VramType::Vram => final(self).vram@ == old(self).vram@.update(address as int, value)
                    && final(self).vram_a == old(self).vram_a && final(self).vram_b == old(self).vram_b,
            },
    {
        if self.config.is_custom_nametable {
            self.mapper.write_nametable(address, value);
        } else {
            let t = self.nametable_mirroring(address);
            proof {
                crate::bit_facts::lemma_usize_masks();
                assert(address & 0x3ff == address % 0x400);
            }
            match t {
                VramType::VramA => self.vram_a.set(address & 0x3ff, value),
                VramType::VramB => self.vram_b.set(address & 0x3ff, value),
                VramType::Vram => self.vram.set(address, value),
            }
        }
    }

    /// Pattern-table read through the shared CHR bank windows.
    pub fn read_chr_direct(&mut self, address: u16) -> (r: u8)
        requires
            old(self).wf(),
        ensures
            *final(self) == *old(self),
            r == old(self).chr_ram@[bank_index(0x1fff, address, old(self).config.chr_bank_size_bit,
                old(self).config.chr_banks@)],
    {
        proof {
            lemma_bank_index_in_rom(0x1fff, address, self.config.chr_bank_size, self.config.chr_bank_size_bit,
                self.config.chr_banks@, self.config.total_chr_rom_size);
        }
        let index = Self::memory_index(CHR_ROM_SIZE - 1, address,
            self.config.chr_bank_size_mask,
            self.config.chr_bank_size_bit,
            self.config.chr_banks.as_slice());
        self.chr_ram[index]
    }

    /// Pattern-table read for boards that map CHR themselves.
    pub fn read_chr_mapper(&mut self, address: u16) -> (r: u8)
        requires
            old(self).wf(),
            address < 0x2000,
        ensures
            *final(self) == *old(self),
            r == match old(self).mapper {
                Mapper::Mmc1(m) => m.chr_rom@[m.chr_index_of(address)],
                Mapper::Namco163(m) => m.chr_value(address),
                _ => 0,
            },
    {
        self.mapper.read_chr(address)
    }

    /// CPU write to cartridge space: the board sees it, and addresses below $8000 also
    /// land in work RAM.
    pub fn write_prg(&mut self, addr: u16, data: u8)
        requires
            old(self).wf(),
        ensures
            final(self).wf(),
            final(self).prg_rom == old(self).prg_rom,
            final(self).chr_ram == old(self).chr_ram,
            final(self).vram == old(self).vram,
            final(self).vram_a == old(self).vram_a,
            final(self).vram_b == old(self).vram_b,
            addr < 0x8000 ==> final(self).wram@ == old(self).wram@.update(addr as int, data),
            addr >= 0x8000 ==> final(self).wram == old(self).wram,
            crate::mappers::mapper::prg_write_effect(old(self).mapper, old(self).config, final(self).mapper,
                final(self).config, addr, data),
            *final(self) == (MapperBase {
                mapper: final(self).mapper,
                config: final(self).config,
                wram: final(self).wram,
                ..*old(self)
            }),
    {
        self.mapper.write_prg(addr, data, &mut self.config);
        if addr < 0x8000 {
            self.wram.set(addr as usize, data);
        }
    }

    /// CPU read of cartridge space.
    pub fn read_prg(&self, address: u16) -> (r: u8)
        requires
            self.wf(),
        ensures
            r == self.prg_byte(address),
    {
        if self.config.is_custom_prg {
            self.read_prg_mapper(address)
        } else {
            self.read_prg_direct(address)
        }
    }

    /// PRG read through the shared PRG bank windows.
    pub fn read_prg_direct(&self, address: u16) -> (r: u8)
        requires
            self.wf(),
        ensures
            address >= 0x8000 ==> r == self.prg_rom@[bank_index(0x7fff, address,
                self.config.prg_bank_size_bit, self.config.prg_banks@)],
            address < 0x8000 ==> r == self.wram@[address as int],
    {
        if address >= 0x8000 {
            proof {
                lemma_bank_index_in_rom(0x7fff, address, self.config.prg_bank_size,
                    self.config.prg_bank_size_bit, self.config.prg_banks@, self.config.total_prg_rom_size);
            }
            let index = Self::memory_index(0x7fff, address,
                self.config.prg_bank_size_mask,
                self.config.prg_bank_size_bit,
                self.config.prg_banks.as_slice());
            self.prg_rom[index]
        } else {
            self.wram[address as usize]
        }
    }

    /// PRG read for boards that map PRG themselves.
    pub fn read_prg_mapper(&self, address: u16) -> (r: u8)
        requires
            self.wf(),
        ensures
            address >= 0x8000 ==> r == match self.mapper {
                Mapper::Mmc1(m) => crate::mappers::mapper_mmc1::mmc1_prg_byte(m, address),
                _ => 0,
            },
            address < 0x8000 ==> r == self.wram@[address as int],
    {
        if address >= 0x8000 {
            self.mapper.read_prg(address)
        } else {
            self.wram[address as usize]
        }
    }

    /// PPU pattern-table write: into the board's CHR when it maps CHR itself, else CHR RAM.
    pub fn write_chr(&mut self, addr: u16, data: u8)
        requires
            old(self).wf(),
            addr < 0x2000,
        ensures
            final(self).wf(),
            final(self).config == old(self).config,
            final(self).wram == old(self).wram,
            final(self).vram == old(self).vram,
            final(self).vram_a == old(self).vram_a,
            final(self).vram_b == old(self).vram_b,
            !old(self).config.is_custom_chr ==> final(self).chr_ram@ == old(self).chr_ram@.update(addr as int, data),
            final(self).prg_rom == old(self).prg_rom,
    {
        if self.config.is_custom_chr {
            self.mapper.write_chr(addr, data);
        } else {
            self.chr_ram.set(addr as usize, data);
        }
    }

    /// The index that `address` reaches through bank windows of `2^bank_size_bit` bytes:
    /// the bank of the window times the bank size, plus the offset in the window.
    pub fn memory_index(address_mask: usize, address: u16, mask: usize, bank_size_bit: usize,
        banks: &[usize]) -> (r: usize)
        requires
            address_mask == 0x7fff || address_mask == 0x1fff,
            is_bank_size(mask + 1, bank_size_bit),
            mask < 0x8000,
            banks@.len() == 256,
            forall|i: int| 0 <= i < 256 ==> #[trigger] banks@[i] < 0x10000,
        ensures
            r == bank_index(address_mask, address, bank_size_bit, banks@),
    {
        let masked_address = address as usize & address_mask;
        proof {
            vstd::arithmetic::power2::lemma2_to64();
            crate::bit_facts::lemma_usize_masks();
            assert(masked_address <= 0x7fff);
            lemma_window_split(masked_address, bank_size_bit);
            let b = banks@[(masked_address >> bank_size_bit) as int];
            lemma_or_is_add(b, masked_address, bank_size_bit);
            let size = vstd::arithmetic::power2::pow2(bank_size_bit as nat);
            assert(size == mask + 1);
            assert(mask == (size - 1) as usize);
        }
        let slot = masked_address >> bank_size_bit;
        (banks[slot] << bank_size_bit) | (masked_address & mask)
    }

    pub fn mirroring(&self) -> (r: Mirroring)
        ensures
            r == self.config.mirroring,
    {
        self.config.mirroring
    }

    pub fn on_scanline(&mut self) -> (r: bool)
        requires
            old(self).wf(),
        ensures
            final(self).wf(),
            final(self).config == old(self).config,
            final(self).prg_rom == old(self).prg_rom,
            final(self).chr_ram == old(self).chr_ram,
            final(self).wram == old(self).wram,
            *final(self) == (MapperBase { mapper: final(self).mapper, ..*old(self) }),
            !(old(self).mapper is Mmc3) ==> !r && *final(self) == *old(self),
            old(self).mapper is Mmc3 ==> final(self).mapper is Mmc3 && crate::mappers::mapper_mmc3::mmc3_scanline(
                old(self).mapper->Mmc3_0,
                final(self).mapper->Mmc3_0,
                r,
            ),
    {
        self.mapper.on_scanline()
    }

    pub fn on_cpu_cycle(&mut self) -> (r: bool)
        requires
            old(self).wf(),
        ensures
            final(self).wf(),
            final(self).config == old(self).config,
            final(self).prg_rom == old(self).prg_rom,
            final(self).chr_ram == old(self).chr_ram,
            final(self).wram == old(self).wram,
            *final(self) == (MapperBase { mapper: final(self).mapper, ..*old(self) }),
            !(old(self).mapper is Namco163) ==> !r && *final(self) == *old(self),
            old(self).mapper is Namco163 ==> final(self).mapper is Namco163 && crate::mappers::mapper19::n163_cpu_cycle(
                old(self).mapper->Namco163_0,
                final(self).mapper->Namco163_0,
                r,
            ),
    {
        self.mapper.on_cpu_cycle()
    }

    pub fn nametable_mirroring(&self, address: usize) -> (r: VramType)
        requires
            self.config.mirroring != Mirroring::SingleScreen,
        ensures
            r == NesMemory::nametable_of(self.config.mirroring, address),
    {
        NesMemory::nametable_mirroring(self.mirroring(), address)
    }
}

impl Default for MapperBase {
    /// The board of `Rom::default()`: NROM with 32 KB of zero PRG and 8 KB of zero CHR.
    fn default() -> (r: Self)
        ensures
            r.wf(),
            r.chr_ram@.len() == 0x2000,
            r.prg_rom@.len() == 0x8000,
    {
        let rom = Rom::default();
        Self::new(&rom)
    }
}

/// The index reached through the bank windows: the bank of the window holding the
/// masked address, shifted by the bank size, plus the offset in the window.
pub open spec fn bank_index(address_mask: usize, address: u16, bit: usize, banks: Seq<usize>) -> int {
    let masked = (address as usize & address_mask) as int;
    let size = vstd::arithmetic::power2::pow2(bit as nat) as int;
    banks[masked / size] * size + masked % size
}

/// For the bank sizes in use, shifting and masking are division and remainder.
proof fn lemma_window_split(m: usize, bit: usize)
    requires
        m <= 0x7fff,
        bit == 10 || bit == 12 || bit == 13 || bit == 14 || bit == 15,
    ensures
        (m >> bit) as int == m as int / vstd::arithmetic::power2::pow2(bit as nat) as int,
        (m >> bit) < 32,
{
    vstd::arithmetic::power2::lemma2_to64();
    lemma_window_bits(m, 0);
    if bit == 10 {
        assert(m >> 10usize == m / 1024);
    } else if bit == 12 {
        assert(m >> 12usize == m / 4096);
    } else if bit == 13 {
        assert(m >> 13usize == m / 8192);
    } else if bit == 14 {
        assert(m >> 14usize == m / 16384);
    } else {
        assert(m >> 15usize == m / 32768);
    }
}

/// `(b << bit) | (m & (size - 1))` is `b * size + m % size` when `b` is small.
proof fn lemma_or_is_add(b: usize, m: usize, bit: usize)
    requires
        b < 0x10000,
        bit == 10 || bit == 12 || bit == 13 || bit == 14 || bit == 15,
    ensures
        ((b << bit) | (m & ((vstd::arithmetic::power2::pow2(bit as nat) - 1) as usize))) as int
            == b as int * vstd::arithmetic::power2::pow2(bit as nat) as int
                + m as int % vstd::arithmetic::power2::pow2(bit as nat) as int,
{
    vstd::arithmetic::power2::lemma2_to64();
    lemma_window_bits(0, b);
    if bit == 10 {
        assert(((b << 10usize) | (m & 1023)) == b * 1024 + m % 1024);
    } else if bit == 12 {
        assert(((b << 12usize) | (m & 4095)) == b * 4096 + m % 4096);
    } else if bit == 13 {
        assert(((b << 13usize) | (m & 8191)) == b * 8192 + m % 8192);
    } else if bit == 14 {
        assert(((b << 14usize) | (m & 16383)) == b * 16384 + m % 16384);
    } else {
        assert(((b << 15usize) | (m & 32767)) == b * 32768 + m % 32768);
    }
}

/// Shifts and masks by the bank sizes in use are divisions and remainders.
proof fn lemma_window_bits(m: usize, b: usize)
    by (bit_vector)
    ensures
        m <= 0x7fff ==> m >> 10 == m / 1024 && m >> 10 < 32,
        m <= 0x7fff ==> m >> 12 == m / 4096 && m >> 12 < 32,
        m <= 0x7fff ==> m >> 13 == m / 8192 && m >> 13 < 32,
        m <= 0x7fff ==> m >> 14 == m / 16384 && m >> 14 < 32,
        m <= 0x7fff ==> m >> 15 == m / 32768 && m >> 15 < 32,
        forall|x: usize| b < 0x10000 ==> #[trigger] ((b << 10usize) | (x & 1023)) == b * 1024 + x % 1024,
        forall|x: usize| b < 0x10000 ==> #[trigger] ((b << 12usize) | (x & 4095)) == b * 4096 + x % 4096,
        forall|x: usize| b < 0x10000 ==> #[trigger] ((b << 13usize) | (x & 8191)) == b * 8192 + x % 8192,
        forall|x: usize| b < 0x10000 ==> #[trigger] ((b << 14usize) | (x & 16383)) == b * 16384 + x % 16384,
        forall|x: usize| b < 0x10000 ==> #[trigger] ((b << 15usize) | (x & 32767)) == b * 32768 + x % 32768,
{
}

/// With every bank below the bank count, the index lies inside the ROM.
proof fn lemma_bank_index_in_rom(address_mask: usize, address: u16, size: usize, bit: usize,
    banks: Seq<usize>, total: usize)
    requires
        address_mask == 0x7fff || address_mask == 0x1fff,
        is_bank_size(size as int, bit),
        banks.len() == 256,
        total / size >= 1,
        total <= MAX_CHR_SIZE,
        forall|i: int| 0 <= i < 256 ==> #[trigger] banks[i] < total as int / size as int,
    ensures
        0 <= bank_index(address_mask, address, bit, banks) < total,
        forall|i: int| 0 <= i < 256 ==> #[trigger] banks[i] < 0x10000,
{
    vstd::arithmetic::power2::lemma2_to64();
    let masked = address as usize & address_mask;
    crate::bit_facts::lemma_usize_masks();
    assert(masked <= 0x7fff);
    assert(vstd::arithmetic::power2::pow2(bit as nat) == size);
    let slot = masked as int / size as int;
    assert(0 <= slot < 32);
    let b = banks[slot];
    let count = total as int / size as int;
    assert(b < count);
    let r = masked as int % size as int;
    assert(0 <= r < size);
    assert(b * size + r < (b + 1) * size) by (nonlinear_arith) requires r < size;
    assert((b + 1) * size <= count * size) by (nonlinear_arith) requires b + 1 <= count, size > 0;
    assert(count * size <= total) by (nonlinear_arith) requires count == total as int / size as int, size > 0;
    assert(b * size >= 0) by (nonlinear_arith) requires b >= 0, size > 0;
    assert forall|i: int| 0 <= i < 256 implies #[trigger] banks[i] < 0x10000 by {
        assert(total as int / size as int <= 0x10000) by (nonlinear_arith)
            requires total <= MAX_CHR_SIZE, size >= 0x400;
    }
}

} // verus!
