use vstd::prelude::*;
use crate::mappers::mapper_config::MapperConfig;
use crate::nes_memory::NesMemory;
use crate::rom::{Mirroring, Rom, PRG_ROM_SIZE};

verus! {

/// MMC1, mapper 1
pub struct MapperMMC1 {
    pub prg_rom: Vec<u8>,
    pub prg_rom_bank_count: usize,
    pub chr_rom: Vec<u8>,
    pub shift_reg: u8,
    pub shift_count: u8,
    pub control: u8,
    pub chr_bank0: u8,
    pub chr_bank1: u8,
    pub prg_bank: u8,
    /// 0-3
    pub nametable_arrangement: u8,
}

/// The 16 KB PRG bank that an MMC1 maps at `address` ($8000-$FFFF).
pub open spec fn mmc1_prg_bank(control: u8, prg_bank: u8, bank_count: int, address: u16) -> int {
    let mode = (control >> 2) & 3;
    let selected = (prg_bank & 0x0f) as int;
    if mode == 0 || mode == 1 {
        // 32 KB mode: ignore low bit, even bank at $8000 and odd at $C000.
        let lo = ((prg_bank & 0x0e) as int) % bank_count;
        if address < 0xC000 { lo } else { (lo + 1) % bank_count }
    } else if mode == 2 {
        // Fix first bank at $8000, switch bank at $C000.
        if address < 0xC000 { 0 } else { selected % bank_count }
    } else {
        // Switch bank at $8000, fix last bank at $C000.
        if address < 0xC000 { selected % bank_count } else { bank_count - 1 }
    }
}

/// The nametable arrangement selected by bits 0..1 of the control register.
pub open spec fn mmc1_mirroring(arrangement: u8) -> Mirroring {
    if arrangement == 0 {
        Mirroring::ScreenA
    } else if arrangement == 1 {
        Mirroring::ScreenB
    } else if arrangement == 2 {
        Mirroring::Vertical
    } else {
        Mirroring::Horizontal
    }
}

/// The byte that an MMC1 reads at PRG address `address`.
pub open spec fn mmc1_prg_byte(m: MapperMMC1, address: u16) -> u8 {
    m.prg_rom@[mmc1_prg_bank(m.control, m.prg_bank, m.prg_rom_bank_count as int, address) * 0x4000
        + (address & 0x3fff) as int]
}

/// A CPU write from $8000 on: bit 7 resets the shift register; otherwise the
/// bit shifts in, and the fifth write loads the register that address bits
/// 13-14 select (control, CHR bank 0, CHR bank 1, PRG bank).
pub open spec fn mmc1_prg_write(b0: MapperMMC1, c0: MapperConfig, b1: MapperMMC1, c1: MapperConfig, address: u16, value: u8) -> bool {
    &&& address < 0x8000 ==> b1 == b0 && c1 == c0
    &&& address >= 0x8000 && value & 0x80 != 0 ==> (
            b1.shift_reg == 0x10 && b1.shift_count == 0
            && b1.control == b0.control | 0x0C
            && b1.prg_bank == b0.prg_bank
            && c1 == c0)
    &&& address >= 0x8000 && value & 0x80 == 0 && b0.shift_count < 4 ==> (
            b1.shift_reg == (b0.shift_reg >> 1) | ((value & 1) << 4)
            && b1.shift_count == b0.shift_count + 1
            && b1.control == b0.control
            && b1.prg_bank == b0.prg_bank
            && c1 == c0)
    &&& address >= 0x8000 && value & 0x80 == 0 && b0.shift_count == 4 ==> ({
            let v = (b0.shift_reg >> 1) | ((value & 1) << 4);
            let reg = (address >> 13) & 3;
            &&& b1.shift_reg == 0x10 && b1.shift_count == 0
            &&& reg == 0 ==> b1.control == v
                && c1 == (MapperConfig { mirroring: mmc1_mirroring(v & 3), ..c0 })
            &&& reg != 0 ==> b1.control == b0.control && c1 == c0
            &&& reg == 1 ==> b1.chr_bank0 == v
            &&& reg == 2 ==> b1.chr_bank1 == v
            &&& reg == 3 ==> b1.prg_bank == v
            &&& reg != 3 ==> b1.prg_bank == b0.prg_bank
        })
}

impl MapperMMC1 {
    pub open spec fn wf(self) -> bool {
        &&& self.prg_rom@.len() >= PRG_ROM_SIZE
        &&& self.prg_rom_bank_count as int == self.prg_rom@.len() as int / (PRG_ROM_SIZE as int)
        &&& self.chr_rom@.len() >= 0x2000
        &&& self.chr_rom@.len() % 0x2000 == 0
        &&& self.shift_count < 5
    }

    pub fn new(rom: &Rom, config: &mut MapperConfig) -> (r: Self)
        requires
            rom.prg_rom@.len() >= PRG_ROM_SIZE,
            rom.chr_rom@.len() >= 0x2000,
            rom.chr_rom@.len() % 0x2000 == 0,
        ensures
            r.wf(),
            r.prg_rom@ == rom.prg_rom@,
            r.chr_rom@ == rom.chr_rom@,
            r.shift_reg == 0x10 && r.shift_count == 0 && r.control == 0xc,
            r.chr_bank0 == 0 && r.chr_bank1 == 0 && r.prg_bank == 0,
            *final(config) == (MapperConfig { is_custom_prg: true, is_custom_chr: true, ..*old(config) }),
    {
        config.set_is_custom_prg(true);
        config.set_is_custom_chr(true);
        let prg_rom_bank_count = rom.prg_rom.len() / PRG_ROM_SIZE;
        Self {
            prg_rom: rom.prg_rom.clone(),
            prg_rom_bank_count,
            chr_rom: rom.chr_rom.clone(),
            shift_reg: 0x10,
            shift_count: 0,
            control: 0xc,
            chr_bank0: 0,
            chr_bank1: 0,
            prg_bank: 0,
            nametable_arrangement: 0,
        }
    }

    /// Reset triggered by a write with bit 7 set: clears the shift register and forces
    /// PRG mode 3.
    fn reset(&mut self)
        ensures
            *final(self) == (MapperMMC1 {
                shift_reg: 0x10,
                shift_count: 0,
                control: old(self).control | 0x0C,
                ..*old(self)
            }),
    {
        self.shift_reg = 0x10;
        self.shift_count = 0;
        self.control = self.control | 0x0C;
    }

    /// Clears the 5-bit shift register after latching a value.
    fn clear_shift(&mut self)
        ensures
            *final(self) == (MapperMMC1 { shift_reg: 0x10, shift_count: 0, ..*old(self) }),
    {
        self.shift_reg = 0x10;
        self.shift_count = 0;
    }

    /// Reads PRG ROM through the bank mode of the control register.
    pub fn read_prg(&self, address: u16) -> (r: u8)
        requires
            self.wf(),
        ensures
            r == mmc1_prg_byte(*self, address),
    {
        let prg_mode = (self.control >> 2) & 0b11;
        let bank_count = self.prg_rom_bank_count;
        let selected_bank = (self.prg_bank & 0x0F) as usize;
        proof {
            let c = self.control;
            let p = self.prg_bank;
            crate::bit_facts::lemma_u8_masks();
            assert(((c >> 2) & 3) <= 3);
            assert(p & 0x0e == (p & 0x0f) & !1u8);
        }
        let bank = if prg_mode == 0 || prg_mode == 1 {
            let bank_lo = ((self.prg_bank & 0x0e) as usize) % bank_count;
            if address < 0xC000 {
                bank_lo
            } else {
                (bank_lo + 1) % bank_count
            }
        } else if prg_mode == 2 {
            if address < 0xC000 {
                0
            } else {
                selected_bank % bank_count
            }
        } else {
            if address < 0xC000 {
                selected_bank % bank_count
            } else {
                bank_count - 1
            }
        };
        let offset = (address & 0x3fff) as usize;
        let _len = self.prg_rom.len();
        proof {
            crate::bit_facts::lemma_u16_masks();
            assert(address & 0x3fff <= 0x3fff);
            assert(bank < bank_count);
            assert(PRG_ROM_SIZE == 0x4000);
            assert((bank as int) * 0x4000 + offset < (bank_count as int) * 0x4000) by (nonlinear_arith)
                requires bank < bank_count, offset < 0x4000;
            assert((bank_count as int) * 0x4000 <= self.prg_rom@.len()) by (nonlinear_arith)
                requires bank_count == self.prg_rom@.len() / 0x4000;
        }
        let actual_address = bank * PRG_ROM_SIZE + offset;
        self.prg_rom[actual_address]
    }

    /// Serial port: five writes of bit 0 load a register chosen by address bits 13..14;
    /// a write with bit 7 set resets the shift register.
    pub fn write_prg(&mut self, address: u16, value: u8, config: &mut MapperConfig)
        requires
            old(self).wf(),
        ensures
            final(self).wf(),
            final(self).prg_rom == old(self).prg_rom,
            final(self).chr_rom == old(self).chr_rom,
            final(self).prg_rom_bank_count == old(self).prg_rom_bank_count,
            mmc1_prg_write(*old(self), *old(config), *final(self), *final(config), address, value),
    {
        if address < 0x8000 {
            return;
        }
        if value & 0x80 != 0 {
            self.reset();
            return;
        }
        let bit = value & 1;
        self.shift_reg = (self.shift_reg >> 1) | (bit << 4);
        self.shift_count = self.shift_count + 1;

        if self.shift_count == 5 {
            let reg = (address >> 13) & 0b11;
            proof {
                crate::bit_facts::lemma_u16_masks();
                assert((address >> 13u16) & 3 < 4);
            }
            if reg == 0 {
                self.control = self.shift_reg;
                let nametable_arrangement = self.shift_reg & 0b11;
                self.nametable_arrangement = nametable_arrangement;
                proof {
                    let s = self.shift_reg;
                    crate::bit_facts::lemma_u8_masks();
                    assert(s & 3 <= 3);
                }
                if nametable_arrangement == 0 {
                    config.set_mirroring(Mirroring::ScreenA);
                } else if nametable_arrangement == 1 {
                    config.set_mirroring(Mirroring::ScreenB);
                } else if nametable_arrangement == 2 {
                    config.set_mirroring(Mirroring::Vertical);
                } else {
                    config.set_mirroring(Mirroring::Horizontal);
                }
            } else if reg == 1 {
                self.chr_bank0 = self.shift_reg;
            } else if reg == 2 {
                self.chr_bank1 = self.shift_reg;
            } else {
                self.prg_bank = self.shift_reg;
            }
            self.clear_shift();
        }
    }

    pub fn read_chr(&mut self, address: u16) -> (r: u8)
        requires
            old(self).wf(),
        ensures
            *final(self) == *old(self),
            r == old(self).chr_rom@[old(self).chr_index_of(address)],
    {
        let i = self.chr_index(address);
        self.chr_rom[i]
    }

    pub fn write_chr(&mut self, address: u16, value: u8)
        requires
            old(self).wf(),
        ensures
            final(self).wf(),
            final(self).chr_rom@ == old(self).chr_rom@.update(old(self).chr_index_of(address), value),
            *final(self) == (MapperMMC1 { chr_rom: final(self).chr_rom, ..*old(self) }),
    {
        let a = self.chr_index(address);
        self.chr_rom.set(a, value);
    }

    /// The CHR ROM index that PPU address `address` reaches: one 8 KB bank (bank 0,
    /// low bit ignored) or two 4 KB banks, by bit 4 of the control register.
    pub open spec fn chr_index_of(self, address: u16) -> int {
        let addr = crate::nes_memory::ppu_mirror_of(address);
        let count = self.chr_rom@.len() as int / 0x1000;
        if (self.control >> 4) & 1 == 0 {
            ((self.chr_bank0 & 0xfe) as int % count) * 0x1000 + (addr & 0x1fff) as int
        } else if addr < 0x1000 {
            (self.chr_bank0 as int % count) * 0x1000 + (addr & 0x0fff) as int
        } else {
            (self.chr_bank1 as int % count) * 0x1000 + (addr & 0x0fff) as int
        }
    }

    fn chr_index(&self, address: u16) -> (r: usize)
        requires
            self.wf(),
        ensures
            r == self.chr_index_of(address),
            r < self.chr_rom@.len(),
    {
        let addr = NesMemory::ppu_mirrorring(address);
        let bank_mode = (self.control >> 4) & 1;
        let chr_4k_bank_count = self.chr_rom.len() / 0x1000;
        proof {
            assert(chr_4k_bank_count % 2 == 0 && chr_4k_bank_count >= 2) by (nonlinear_arith)
                requires chr_4k_bank_count == self.chr_rom@.len() / 0x1000,
                    self.chr_rom@.len() % 0x2000 == 0, self.chr_rom@.len() >= 0x2000;
            assert((chr_4k_bank_count as int) * 0x1000 <= self.chr_rom@.len()) by (nonlinear_arith)
                requires chr_4k_bank_count == self.chr_rom@.len() / 0x1000;
            crate::bit_facts::lemma_u16_masks();
            crate::bit_facts::lemma_u8_masks();
            assert(addr & 0x1fff <= 0x1fff && addr & 0x0fff <= 0x0fff);
            let b0 = self.chr_bank0;
            assert((b0 & 0xfe) % 2 == 0);
        }
        if bank_mode == 0 {
            let bank = ((self.chr_bank0 & 0xfe) as usize) % chr_4k_bank_count;
            let offset = (addr as usize) & 0x1FFF;
            proof {
                let e = (self.chr_bank0 & 0xfe) as usize;
                lemma_even_mod_even(e as int, chr_4k_bank_count as int);
                assert((bank as int) * 0x1000 + offset < (chr_4k_bank_count as int) * 0x1000)
                    by (nonlinear_arith)
                    requires bank + 2 <= chr_4k_bank_count, offset < 0x2000;
            }
            bank * 0x1000 + offset
        } else {
            let bank = if addr < 0x1000 {
                (self.chr_bank0 as usize % chr_4k_bank_count) * 0x1000
            } else {
                (self.chr_bank1 as usize % chr_4k_bank_count) * 0x1000
            };
            let offset = (addr as usize) & 0x0FFF;
            proof {
                let b = if addr < 0x1000 { self.chr_bank0 as usize % chr_4k_bank_count }
                    else { self.chr_bank1 as usize % chr_4k_bank_count };
                assert(bank == b * 0x1000);
                assert((b as int) * 0x1000 + offset < (chr_4k_bank_count as int) * 0x1000)
                    by (nonlinear_arith)
                    requires b < chr_4k_bank_count, offset < 0x1000;
            }
            bank + offset
        }
    }
}

/// An even number modulo an even modulus is even, so it is at least 2 below the modulus.
proof fn lemma_even_mod_even(e: int, c: int)
    requires
        e >= 0,
        c >= 2,
        e % 2 == 0,
        c % 2 == 0,
    ensures
        (e % c) % 2 == 0,
        e % c + 2 <= c,
{
    vstd::arithmetic::div_mod::lemma_fundamental_div_mod(e, c);
    let q = e / c;
    let r = e % c;
    assert(e == c * q + r);
    let k = c / 2;
    assert(c * q == 2 * (k * q)) by (nonlinear_arith)
        requires c == 2 * k;
    assert((c * q) % 2 == 0);
    assert(r % 2 == 0) by (nonlinear_arith)
        requires e == c * q + r, (c * q) % 2 == 0, e % 2 == 0;
    assert(0 <= r < c);
}

/// Law: where a PPU read of pattern space `a` ($0000-$1FFF) lands in CHR ROM, in 4 KB
/// banks: with bit 4 of the control register set, $0000-$0FFF come from the bank that
/// CHR register 0 selects and $1000-$1FFF from the one register 1 selects (each modulo the
/// bank count); with it clear, the two halves come from two consecutive banks starting at
/// the even bank of register 0. Within a bank, the offset is that of `a`.
pub proof fn lemma_mmc1_chr_windows(m: MapperMMC1, a: u16)
    requires
        m.wf(),
        a < 0x2000,
    ensures
        ({
            let count = m.chr_rom@.len() as int / 0x1000;
            let i = m.chr_index_of(a);
            &&& 0 <= i
            &&& i % 0x1000 == a as int % 0x1000
            &&& m.control & 0x10 != 0 && a < 0x1000 ==> i / 0x1000 == m.chr_bank0 as int % count
            &&& m.control & 0x10 != 0 && a >= 0x1000 ==> i / 0x1000 == m.chr_bank1 as int % count
            &&& m.control & 0x10 == 0 ==> i / 0x1000
                == (m.chr_bank0 as int - m.chr_bank0 as int % 2) % count + a as int / 0x1000
        }),
{
    let count = m.chr_rom@.len() as int / 0x1000;
    assert(count >= 2) by (nonlinear_arith)
        requires count == m.chr_rom@.len() as int / 0x1000, m.chr_rom@.len() >= 0x2000;
    let c = m.control;
    let b0 = m.chr_bank0;
    crate::bit_facts::lemma_u8_fields();
    crate::bit_facts::lemma_word_fields();
    crate::bit_facts::lemma_u16_masks();
    assert(((c >> 4) & 1) == (c / 16) % 2 && (c & 0x10) == 16 * ((c / 16) % 2) && (b0 & 0xfe) == 2 * (b0 / 2));
    assert((a & 0x3fff) == a % 0x4000 && (a & 0x1fff) == a % 0x2000 && (a & 0x0fff) == a % 0x1000);
    assert(crate::nes_memory::ppu_mirror_of(a) == a);
    let i = m.chr_index_of(a);
    let off = a as int % 0x1000;
    if c & 0x10 != 0 {
        let k = if a < 0x1000 { m.chr_bank0 as int % count } else { m.chr_bank1 as int % count };
        assert(i == k * 0x1000 + off);
        assert(k >= 0);
        assert(i / 0x1000 == k && i % 0x1000 == off) by (nonlinear_arith)
            requires i == k * 0x1000 + off, 0 <= off < 0x1000, k >= 0;
    } else {
        let k = (b0 & 0xfe) as int % count;
        assert(i == k * 0x1000 + a as int);
        assert(k >= 0);
        assert(i / 0x1000 == k + a as int / 0x1000 && i % 0x1000 == off) by (nonlinear_arith)
            requires i == k * 0x1000 + a as int, 0 <= a < 0x2000, off == a as int % 0x1000, k >= 0;
    }
}

/// Law: the PRG banks that MMC1 maps in each mode of control bits 2-3, with `n` banks of
/// 16 KB and the low four bits `b` of the PRG bank register: in modes 0 and 1 a 32 KB bank,
/// `b` rounded down to even at $8000 and the next bank at $C000; in mode 2 the first bank
/// at $8000 and bank `b` at $C000; in mode 3 bank `b` at $8000 and the last bank at $C000
/// (bank numbers taken modulo `n`).
pub proof fn lemma_mmc1_prg_windows(control: u8, prg_bank: u8, n: int, address: u16)
    requires
        n >= 1,
    ensures
        ({
            let mode = (control / 4) % 4;
            let b = (prg_bank % 16) as int;
            let bank = mmc1_prg_bank(control, prg_bank, n, address);
            &&& mode <= 1 && address < 0xc000 ==> bank == (b - b % 2) % n
            &&& mode <= 1 && address >= 0xc000 ==> bank == ((b - b % 2) % n + 1) % n
            &&& mode == 2 && address < 0xc000 ==> bank == 0
            &&& mode == 2 && address >= 0xc000 ==> bank == b % n
            &&& mode == 3 && address < 0xc000 ==> bank == b % n
            &&& mode == 3 && address >= 0xc000 ==> bank == n - 1
        }),
{
    crate::bit_facts::lemma_u8_fields();
    assert(((control >> 2) & 3) == (control / 4) % 4);
    assert((prg_bank & 0x0f) == prg_bank % 16 && (prg_bank & 0x0e) == 2 * ((prg_bank / 2) % 8));
}

/// One serial write: the 5-bit shift register moves right and bit 0 of the byte enters at
/// bit 4.
proof fn lemma_serial_shift(x: u8, d: u8)
    by (bit_vector)
    requires
        x < 32,
    ensures
        ((x >> 1u8) | ((d & 1u8) << 4u8)) == x / 2 + 16 * (d % 2),
{
}

/// Law: the serial port. From a reset shift register (after a write with bit 7 set, or at
/// power-up), five writes with bit 7 clear load the number whose bits 0 to 4 are bit 0 of
/// the five bytes, first write lowest, into the register that bits 13-14 of the fifth
/// address select (control, CHR bank 0, CHR bank 1 or PRG bank), and the shift register is
/// reset again.
pub proof fn lemma_mmc1_serial_load(bs: Seq<MapperMMC1>, cs: Seq<MapperConfig>, addrs: Seq<u16>, ds: Seq<u8>)
    requires
        bs.len() == 6,
        cs.len() == 6,
        addrs.len() == 5,
        ds.len() == 5,
        bs[0].shift_reg == 0x10,
        bs[0].shift_count == 0,
        forall|i: int| 0 <= i < 5 ==> #[trigger] addrs[i] >= 0x8000,
        forall|i: int| 0 <= i < 5 ==> #[trigger] ds[i] < 128,
        mmc1_prg_write(bs[0], cs[0], bs[1], cs[1], addrs[0], ds[0]),
        mmc1_prg_write(bs[1], cs[1], bs[2], cs[2], addrs[1], ds[1]),
        mmc1_prg_write(bs[2], cs[2], bs[3], cs[3], addrs[2], ds[2]),
        mmc1_prg_write(bs[3], cs[3], bs[4], cs[4], addrs[3], ds[3]),
        mmc1_prg_write(bs[4], cs[4], bs[5], cs[5], addrs[4], ds[4]),
    ensures
        ({
            let v = ds[0] % 2 + 2 * (ds[1] % 2) + 4 * (ds[2] % 2) + 8 * (ds[3] % 2) + 16 * (ds[4] % 2);
            let reg = (addrs[4] / 0x2000) % 4;
            &&& reg == 0 ==> bs[5].control == v
            &&& reg == 1 ==> bs[5].chr_bank0 == v
            &&& reg == 2 ==> bs[5].chr_bank1 == v
            &&& reg == 3 ==> bs[5].prg_bank == v
            &&& bs[5].shift_reg == 0x10 && bs[5].shift_count == 0
        }),
{
    crate::bit_facts::lemma_u8_fields();
    crate::bit_facts::lemma_word_fields();
    assert forall|i: int| 0 <= i < 5 implies (#[trigger] ds[i]) & 0x80 == 0 by {
        assert(ds[i] < 128);
        assert(ds[i] & 0x80 == 128 * (ds[i] / 128));
    }
    assert(addrs[0] >= 0x8000 && addrs[1] >= 0x8000 && addrs[2] >= 0x8000 && addrs[3] >= 0x8000
        && addrs[4] >= 0x8000);
    lemma_serial_shift(bs[0].shift_reg, ds[0]);
    assert(bs[1].shift_reg == 8 + 16 * (ds[0] % 2) && bs[1].shift_count == 1);
    lemma_serial_shift(bs[1].shift_reg, ds[1]);
    assert(bs[2].shift_reg == 4 + 8 * (ds[0] % 2) + 16 * (ds[1] % 2) && bs[2].shift_count == 2);
    lemma_serial_shift(bs[2].shift_reg, ds[2]);
    assert(bs[3].shift_reg == 2 + 4 * (ds[0] % 2) + 8 * (ds[1] % 2) + 16 * (ds[2] % 2) && bs[3].shift_count == 3);
    lemma_serial_shift(bs[3].shift_reg, ds[3]);
    assert(bs[4].shift_reg == 1 + 2 * (ds[0] % 2) + 4 * (ds[1] % 2) + 8 * (ds[2] % 2) + 16 * (ds[3] % 2)
        && bs[4].shift_count == 4);
    lemma_serial_shift(bs[4].shift_reg, ds[4]);
    assert((addrs[4] >> 13) & 3 == (addrs[4] / 0x2000) % 4);
}

} // verus!
