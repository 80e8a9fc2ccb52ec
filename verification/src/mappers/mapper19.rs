use vstd::prelude::*;
use crate::mappers::mapper_config::MapperConfig;
use crate::rom::Rom;

verus! {

/// Bit facts for the register decoding of the board.
proof fn lemma_n163_bits(address: u16, a: usize)
    by (bit_vector)
    ensures
        (address >> 11u16) & 7 < 8,
        (address >> 11u16) & 3 < 4,
        (address as usize >> 11usize) & 7 == ((address >> 11u16) & 7) as usize,
        (address as usize >> 11usize) & 3 == ((address >> 11u16) & 3) as usize,
        0x2000 <= a < 0x3000 ==> ((a as u16) & 0x3fff) < 0x3000,
{
}


/// Namco 163, mapper 19: twelve 1 KB CHR windows (eight pattern, four nametable), any
/// of which can show the console's internal nametable RAM, and a 15-bit CPU cycle IRQ.
pub struct Mapper19 {
    pub chr_rom: Vec<u8>,
    pub prg_rom: Vec<u8>,
    pub prg_banks: [u8; 4],
    pub chr_banks: [u8; 12],
    pub ram_enable: u8,
    /// 2 internal nametables, 0x400 each
    pub ciram: [u8; 0x800],
    pub write_protect: u8,
    pub irq_counter: u16,
    pub irq_enabled: bool,
    pub irq_pending: bool,
}

/// Whether window `bank_index` with bank value `bank_value` shows internal nametable
/// RAM: values $E0-$FF do for the nametable windows, and for the pattern windows unless
/// bit 6 (windows 0..3) or bit 7 (windows 4..7) of $E800 selects CHR ROM.
pub open spec fn n163_uses_ciram(bank_index: int, bank_value: u8, ram_enable: u8) -> bool {
    bank_value >= 0xe0 && (bank_index >= 8 || (bank_index <= 3 && ram_enable & 0x40 == 0)
        || (4 <= bank_index <= 7 && ram_enable & 0x80 == 0))
}

/// A CPU write: the IRQ counter ($5000-$5800), the CHR and nametable banks
/// ($8000-$DFFF), the PRG banks and RAM enable ($E000-$F000), write protect
/// ($F800).
pub open spec fn n163_prg_write(b0: Mapper19, c0: MapperConfig, b1: Mapper19, c1: MapperConfig, address: u16, data: u8) -> bool {
    &&& address & 0xf800 == 0x5000 ==> b1.irq_counter == (b0.irq_counter & 0xff00) | data as u16
            && !b1.irq_pending
    &&& address & 0xf800 == 0x5800 ==> b1.irq_counter
            == (b0.irq_counter & 0xff) | ((data as u16 & 0x7f) << 8)
            && !b1.irq_pending && b1.irq_enabled == (data & 0x80 != 0)
    &&& 0x8000 <= address & 0xf800 <= 0xb800 ==>
            b1.chr_banks@ == b0.chr_banks@.update(((address >> 11u16) & 7) as int, data)
    &&& 0xc000 <= address & 0xf800 <= 0xd800 ==>
            b1.chr_banks@ == b0.chr_banks@.update(8 + ((address >> 11u16) & 3) as int, data)
    &&& 0xe000 <= address & 0xf800 <= 0xf000 ==> ({
            let bank = ((address & 0xf800) - 0xe000) / 0x800;
            &&& b1.prg_banks@ == b0.prg_banks@.update(bank,
                data & ((c0.prg_count() - 1) as u8))
            &&& c1.prg_banks@ == c0.prg_banks@.update(bank,
                (data as usize) & (c0.prg_count() - 1) as usize)
            &&& address & 0xf800 == 0xe800 ==> b1.ram_enable == data
        })
    &&& address & 0xf800 == 0xf800 ==> b1.write_protect == data
    &&& !(0xe000 <= address & 0xf800 <= 0xf000) ==> c1 == c0
    &&& c1 == (MapperConfig { prg_banks: c1.prg_banks, ..c0 })
}

/// Where a write through window `address / 0x400` lands: windows that show
/// internal RAM take the byte; the others leave the RAM as it was.
pub open spec fn ciram_after_write(b: Mapper19, address: u16, value: u8) -> Seq<u8> {
    let a = (address & 0x3fff) as int;
    let bank_index = a / 0x400;
    let bank_value = b.chr_banks[bank_index];
    if n163_uses_ciram(bank_index, bank_value, b.ram_enable) {
        b.ciram@.update((bank_value & 1) as int * 0x400 + a % 0x400, value)
    } else {
        b.ciram@
    }
}

/// A CPU cycle of the IRQ counter: while enabled it counts up to $7FFF, where it
/// raises one IRQ until the counter is written again.
pub open spec fn n163_cpu_cycle(b0: Mapper19, b1: Mapper19, r: bool) -> bool {
    &&& b0.irq_enabled && b0.irq_counter < 0x7fff ==>
        !r && b1.irq_counter == b0.irq_counter + 1
        && b1.irq_pending == b0.irq_pending
    &&& b0.irq_enabled && b0.irq_counter >= 0x7fff ==>
        r == !b0.irq_pending && b1.irq_pending
        && b1.irq_counter == b0.irq_counter
    &&& !b0.irq_enabled ==> !r && b1 == b0
    &&& b1.irq_enabled == b0.irq_enabled
    &&& b1.chr_rom == b0.chr_rom
    &&& b1.chr_banks == b0.chr_banks
    &&& b1.ciram == b0.ciram
    &&& b1 == (Mapper19 { irq_counter: b1.irq_counter, irq_pending: b1.irq_pending, ..b0 })
}

impl Mapper19 {
    pub open spec fn wf(self) -> bool {
        self.chr_rom@.len() > 0
    }

    /// The value a read of PPU address `address` gives.
    pub open spec fn chr_value(self, address: u16) -> u8 {
        let a = (address & 0x3fff) as int;
        let bank_index = a / 0x400;
        let offset = a % 0x400;
        let bank_value = self.chr_banks[bank_index];
        if n163_uses_ciram(bank_index, bank_value, self.ram_enable) {
            self.ciram[(bank_value & 1) as int * 0x400 + offset]
        } else {
            self.chr_rom@[(bank_value as int * 0x400 + offset) % self.chr_rom@.len() as int]
        }
    }

    pub fn new(rom: &Rom, config: &mut MapperConfig) -> (r: Self)
        requires
            old(config).sizes_wf(),
            old(config).banks_zero(),
            0x2000 <= old(config).total_prg_rom_size <= 255 * 0x2000,
            old(config).total_chr_rom_size >= 0x2000,
            old(config).total_chr_rom_size == rom.chr_rom@.len(),
        ensures
            r.wf(),
            r.chr_rom@ == rom.chr_rom@,
            r.prg_rom@ == rom.prg_rom@,
            final(config).wf(),
            final(config).is_custom_chr,
            final(config).is_custom_nametable,
            final(config).is_custom_prg == old(config).is_custom_prg,
            final(config).prg_bank_size == 0x2000,
            final(config).chr_bank_size == 0x400,
            1 <= final(config).prg_count() <= 255,
            final(config).total_prg_rom_size == old(config).total_prg_rom_size,
            final(config).total_chr_rom_size == old(config).total_chr_rom_size,
            final(config).mirroring == old(config).mirroring,
            final(config).on_read_chr_hook == old(config).on_read_chr_hook,
    {
        config.set_prg_bank_size(0x2000);
        config.set_chr_bank_size(0x400);
        assert(1 <= config.prg_count() <= 255 && config.chr_count() >= 8);
        let count = config.get_prg_bank_count();
        config.set_prg_bank(3, count - 1);
        config.set_is_custom_chr(true);
        config.set_is_custom_nametable(true);
        let last = count as u8 - 1;
        Self {
            chr_rom: rom.chr_rom.clone(),
            prg_rom: rom.prg_rom.clone(),
            ciram: [0; 0x800],
            prg_banks: [0, 0, 0, last],
            chr_banks: [0; 12],
            irq_counter: 0,
            irq_enabled: false,
            irq_pending: false,
            ram_enable: 0,
            write_protect: 0,
        }
    }

    /// Writes through window `address / 0x400`; only windows showing internal RAM take
    /// the write.
    pub fn write_chr_19(&mut self, address: u16, value: u8)
        requires
            (address & 0x3fff) < 0x3000,
        ensures
            final(self).ciram@ == ciram_after_write(*old(self), address, value),
            *final(self) == (Mapper19 { ciram: final(self).ciram, ..*old(self) }),
    {
        let address = (address as usize) & 0x3fff;
        let bank_index = address / 0x400;
        let offset = address % 0x400;
        let bank_value = self.chr_banks[bank_index];
        if bank_value >= 0xE0 {
            let ciram_page = bank_value as usize & 0x01;
            proof {
                crate::bit_facts::lemma_usize_masks();
                assert(bank_value as usize & 1 <= 1);
            }
            if bank_index >= 8 {
                self.ciram[(ciram_page * 1024) + offset] = value;
            } else {
                let use_ciram = if bank_index <= 3 {
                    (self.ram_enable & 0x40) == 0
                } else {
                    (self.ram_enable & 0x80) == 0
                };
                if use_ciram {
                    self.ciram[(ciram_page * 1024) + offset] = value;
                }
            }
        }
    }

    /// Reads through window `address / 0x400`. CHR ROM bank numbers beyond the end of
    /// CHR ROM wrap around.
    pub fn read_chr_19(&self, address: u16) -> (r: u8)
        requires
            self.wf(),
            (address & 0x3fff) < 0x3000,
        ensures
            r == self.chr_value(address),
    {
        let address = (address as usize) & 0x3fff;
        let bank_index = address / 0x400;
        let offset = address % 0x400;
        let bank_value = self.chr_banks[bank_index];
        if bank_value >= 0xe0 {
            return self.read_special_bank(bank_index, bank_value, offset);
        }
        let chr_address = (bank_value as usize) * 0x400 + offset;
        self.chr_rom[chr_address % self.chr_rom.len()]
    }

    /// A read through a window whose bank value is $E0-$FF.
    fn read_special_bank(&self, bank_index: usize, bank_value: u8, offset: usize) -> (r: u8)
        requires
            self.wf(),
            bank_index < 12,
            offset < 0x400,
            bank_value >= 0xe0,
        ensures
            n163_uses_ciram(bank_index as int, bank_value, self.ram_enable) ==>
                r == self.ciram[(bank_value & 1) as int * 0x400 + offset],
            !n163_uses_ciram(bank_index as int, bank_value, self.ram_enable) ==>
                r == self.chr_rom@[(bank_value as int * 0x400 + offset) % self.chr_rom@.len() as int],
    {
        let ciram_page = bank_value as usize & 1;
        proof {
            crate::bit_facts::lemma_usize_masks();
            assert(bank_value as usize & 1 <= 1);
        }
        if bank_index >= 8 {
            return self.ciram[ciram_page * 0x400 + offset];
        }
        let use_ciram = if bank_index <= 3 {
            (self.ram_enable & 0x40) == 0
        } else {
            (self.ram_enable & 0x80) == 0
        };
        if use_ciram {
            return self.ciram[(ciram_page * 1024) + offset];
        }
        let chr_address = (bank_value as usize * 1024) + offset;
        self.chr_rom[chr_address % self.chr_rom.len()]
    }

    /// $5000/$5800: IRQ counter and enable; $8000-$B800: pattern windows;
    /// $C000-$D800: nametable windows; $E000-$F000: PRG banks (and $E800 the RAM
    /// enables); $F800: write protect.
    pub fn write_prg(&mut self, address: u16, data: u8, config: &mut MapperConfig)
        requires
            old(self).wf(),
            old(config).wf(),
            1 <= old(config).prg_count() <= 255,
        ensures
            final(self).wf(),
            final(config).wf(),
            final(config).prg_count() == old(config).prg_count(),
            final(self).chr_rom == old(self).chr_rom,
            final(self).ciram == old(self).ciram,
            n163_prg_write(*old(self), *old(config), *final(self), *final(config), address, data),
    {
        let mask = address & 0xf800;
        proof {
            crate::bit_facts::lemma_u16_masks();
            assert(address & 0xf800 <= 0xf800);
            lemma_n163_bits(address, 0);
        }
        if mask == 0x5000 {
            self.irq_counter = (self.irq_counter & 0xff00) | data as u16;
            self.irq_pending = false;
        } else if mask == 0x5800 {
            let value = (data as u16 & 0x7f) << 8;
            self.irq_counter = (self.irq_counter & 0xff) | value;
            self.irq_pending = false;
            self.irq_enabled = (data & 0x80) != 0;
        } else if 0x8000 <= mask && mask <= 0xb800 {
            let bank_index = (address as usize >> 11usize) & 7;
            proof {
                lemma_n163_bits(address, 0);
            }
            self.chr_banks[bank_index] = data;
        } else if 0xc000 <= mask && mask <= 0xd800 {
            let bank_index = 8 + ((address as usize >> 11usize) & 3);
            proof {
                lemma_n163_bits(address, 0);
            }
            self.chr_banks[bank_index] = data;
        } else if 0xe000 <= mask && mask <= 0xf000 {
            let bank = (mask as usize - 0xe000) / 0x800;
            let count = config.get_prg_bank_count();
            let data2 = data & (count as u8 - 1);
            self.prg_banks[bank] = data2;
            config.set_prg_bank(bank, data as usize);
            if mask == 0xe800 {
                self.ram_enable = data;
            }
        } else if mask == 0xf800 {
            self.write_protect = data;
        }
    }

    pub fn read_chr(&mut self, addr: u16) -> (r: u8)
        requires
            old(self).wf(),
            (addr & 0x3fff) < 0x3000,
        ensures
            r == old(self).chr_value(addr),
            *final(self) == *old(self),
    {
        self.read_chr_19(addr)
    }

    pub fn write_chr(&mut self, addr: u16, data: u8)
        requires
            (addr & 0x3fff) < 0x3000,
        ensures
            final(self).ciram@ == ciram_after_write(*old(self), addr, data),
            *final(self) == (Mapper19 { ciram: final(self).ciram, ..*old(self) }),
    {
        self.write_chr_19(addr, data);
    }

    pub fn read_nametable(&self, address: usize) -> (r: u8)
        requires
            self.wf(),
            0x2000 <= address < 0x3000,
        ensures
            r == self.chr_value(address as u16),
    {
        proof {
            lemma_n163_bits(0, address);
        }
        self.read_chr_19(address as u16)
    }

    pub fn write_nametable(&mut self, address: usize, value: u8)
        requires
            0x2000 <= address < 0x3000,
        ensures
            final(self).ciram@ == ciram_after_write(*old(self), address as u16, value),
            *final(self) == (Mapper19 { ciram: final(self).ciram, ..*old(self) }),
    {
        proof {
            lemma_n163_bits(0, address);
        }
        self.write_chr_19(address as u16, value);
    }

    /// Counts CPU cycles while enabled; at $7FFF it raises one IRQ until the counter is
    /// written again.
    pub fn on_cpu_cycle(&mut self) -> (r: bool)
        ensures
            n163_cpu_cycle(*old(self), *final(self), r),
    {
        if self.irq_enabled {
            if self.irq_counter < 0x7fff {
                self.irq_counter = self.irq_counter + 1;
                return false;
            } else {
                if !self.irq_pending {
                    self.irq_pending = true;
                    return true;
                }
            }
        }
        false
    }
}

} // verus!
