use vstd::prelude::*;
use crate::mappers::mapper_config::MapperConfig;
use crate::rom::{Mirroring, Rom};

verus! {

/// MMC3 (#4): eight bank registers R0..R7, two bank modes, and a scanline IRQ counter.
pub struct MapperMMC3 {
    pub chr_mode: u8,
    pub prg_mode: u8,
    /// 0..7 (R0..R7)
    pub register: usize,
    pub registers: [usize; 8],
    pub irq_load_value: u8,
    pub irq_counter: u8,
    pub irq_reload: bool,
    pub irq_enabled: bool,
}

/// The value that a write stores in bank register `register`: R0 and R1 ignore the
/// bottom bit, R6 and R7 the top two bits.
pub open spec fn mmc3_register_value(register: usize, data: u8) -> usize {
    if register <= 1 {
        data as usize & 0xfe
    } else if register >= 6 {
        data as usize & 0x3f
    } else {
        data as usize
    }
}

/// The bank register, or fixed bank, that window `i` (0..7) of the CHR map uses.
pub open spec fn mmc3_chr_source(chr_mode: u8, registers: Seq<usize>, i: int) -> usize {
    let r = registers;
    if chr_mode == 0 {
        if i == 0 { r[0] & 0xfe } else if i == 1 { r[0] | 1 } else if i == 2 { r[1] & 0xfe }
        else if i == 3 { r[1] | 1 } else { r[i - 2] }
    } else {
        if i < 4 { r[i + 2] } else if i == 4 { r[0] & 0xfe } else if i == 5 { r[0] | 1 }
        else if i == 6 { r[1] & 0xfe } else { r[1] | 1 }
    }
}

/// A CPU write: bank select and bank data ($8000-$9FFF, which also lay out the four
/// 8 KB PRG windows and the eight 1 KB CHR windows), mirroring ($A000),
/// IRQ latch and reload ($C000-$DFFF), IRQ disable and enable ($E000-).
pub open spec fn mmc3_prg_write(b0: MapperMMC3, c0: MapperConfig, b1: MapperMMC3, c1: MapperConfig, addr: u16, data: u8) -> bool {
    &&& 0x8000 <= addr <= 0x9fff && addr & 1 == 0 ==> b1.register == (data & 7) as usize
            && b1.prg_mode == (data & 0x40) >> 6 && b1.chr_mode == (data & 0x80) >> 7
            && b1.registers == b0.registers
    &&& 0x8000 <= addr <= 0x9fff && addr & 1 == 1 ==>
            b1.registers@ == b0.registers@.update(
                b0.register as int, mmc3_register_value(b0.register, data))
    &&& 0x8000 <= addr <= 0x9fff ==> (forall|i: int| 0 <= i < 8 ==> #[trigger] c1.chr_banks@[i]
            == mmc3_chr_source(b1.chr_mode, b1.registers@, i)
                & (c0.chr_count() - 1) as usize)
    &&& 0x8000 <= addr <= 0x9fff ==> {
            let n = c0.prg_count();
            let mask = (n - 1) as usize;
            &&& c1.prg_banks@[0] == (if b1.prg_mode == 0 { b1.registers[6] } else { (n - 2) as usize }) & mask
            &&& c1.prg_banks@[1] == b1.registers[7] & mask
            &&& c1.prg_banks@[2] == (if b1.prg_mode == 0 { (n - 2) as usize } else { b1.registers[6] }) & mask
            &&& c1.prg_banks@[3] == mask
            &&& c1.prg_banks@.len() == c0.prg_banks@.len()
            &&& c1.chr_banks@.len() == c0.chr_banks@.len()
            &&& forall|i: int| 4 <= i < c0.prg_banks@.len() ==> #[trigger] c1.prg_banks@[i] == c0.prg_banks@[i]
            &&& forall|i: int| 8 <= i < c0.chr_banks@.len() ==> #[trigger] c1.chr_banks@[i] == c0.chr_banks@[i]
        }
    &&& !(0x8000 <= addr <= 0x9fff) ==> c1.prg_banks == c0.prg_banks && c1.chr_banks == c0.chr_banks
    &&& 0xa000 <= addr <= 0xbfff && addr & 1 == 0 ==> c1.mirroring
            == if data & 1 == 1 { Mirroring::Horizontal } else { Mirroring::Vertical }
    &&& !(0xa000 <= addr <= 0xbfff && addr & 1 == 0) ==> c1.mirroring == c0.mirroring
    &&& 0xc000 <= addr <= 0xdfff && addr & 1 == 0 ==> b1.irq_load_value
            == if data > 0 { (data - 1) as u8 } else { data }
    &&& 0xc000 <= addr <= 0xdfff && addr & 1 == 1 ==> b1.irq_counter == 0 && b1.irq_reload
    &&& 0xe000 <= addr ==> b1.irq_enabled == (addr & 1 == 1)
    &&& addr < 0x8000 ==> b1 == b0 && c1 == c0
    &&& c1 == (MapperConfig {
            prg_banks: c1.prg_banks,
            chr_banks: c1.chr_banks,
            mirroring: c1.mirroring,
            ..c0
        })
}

/// The scanline counter: reloaded when it is 0 or a reload is pending, else
/// decremented; the IRQ fires when it reaches 0 while enabled. Only the counter
/// and the reload flag change.
pub open spec fn mmc3_scanline(b0: MapperMMC3, b1: MapperMMC3, r: bool) -> bool {
    &&& b1.irq_counter == if b0.irq_counter == 0 || b0.irq_reload {
        b0.irq_load_value
    } else {
        (b0.irq_counter - 1) as u8
    }
    &&& !b1.irq_reload
    &&& r == (b1.irq_counter == 0 && b0.irq_enabled)
    &&& b1 == (MapperMMC3 { irq_counter: b1.irq_counter, irq_reload: false, ..b0 })
}

impl MapperMMC3 {
    pub open spec fn wf(self) -> bool {
        self.register < 8
    }

    pub fn new(_rom: &Rom, config: &mut MapperConfig) -> (r: Self)
        requires
            old(config).sizes_wf(),
            old(config).banks_zero(),
            old(config).total_prg_rom_size >= 0x4000,
            old(config).total_chr_rom_size >= 0x2000,
        ensures
            r.wf(),
            final(config).wf(),
            final(config).prg_bank_size == 0x2000,
            final(config).chr_bank_size == 0x400,
            final(config).prg_count() >= 2,
            final(config).prg_banks@[3] == final(config).prg_count() - 1,
            final(config).total_prg_rom_size == old(config).total_prg_rom_size,
            final(config).total_chr_rom_size == old(config).total_chr_rom_size,
            final(config).mirroring == old(config).mirroring,
            final(config).is_custom_chr == old(config).is_custom_chr,
            final(config).is_custom_prg == old(config).is_custom_prg,
            final(config).is_custom_nametable == old(config).is_custom_nametable,
            final(config).on_read_chr_hook == old(config).on_read_chr_hook,
            r.registers@ == Seq::new(8, |i: int| 0usize) && r.irq_counter == 0 && !r.irq_enabled,
    {
        config.set_prg_bank_size(0x2000);
        config.set_chr_bank_size(0x400);
        assert(config.prg_count() >= 2 && config.chr_count() >= 8);
        let last = config.get_prg_bank_count() - 1;
        config.set_prg_bank(3, last);
        proof {
            crate::bit_facts::lemma_usize_masks();
            assert(last & last == last);
        }
        let registers = [0usize; 8];
        assert(registers@ =~= Seq::new(8, |i: int| 0usize));
        Self {
            chr_mode: 0,
            prg_mode: 0,
            register: 0,
            registers,
            irq_load_value: 0,
            irq_counter: 0,
            irq_reload: false,
            irq_enabled: false,
        }
    }

    /// $8000 even: bank select, odd: bank data; $A000 even: mirroring; $C000 even: IRQ
    /// latch, odd: IRQ reload; $E000 even: IRQ disable, odd: IRQ enable.
    pub fn write_prg(&mut self, addr: u16, data: u8, config: &mut MapperConfig)
        requires
            old(self).wf(),
            old(config).wf(),
            old(config).prg_count() >= 2,
        ensures
            final(self).wf(),
            final(config).wf(),
            final(config).prg_count() == old(config).prg_count(),
            mmc3_prg_write(*old(self), *old(config), *final(self), *final(config), addr, data),
    {
        let even = (addr & 1) == 0;
        proof {
            crate::bit_facts::lemma_u16_masks();
            assert(addr & 1 == 0 || addr & 1 == 1);
        }
        if 0x8000 <= addr && addr <= 0x9fff {
            if even {
                self.register = (data & 0b111) as usize;
                self.prg_mode = (data & 0b0100_0000) >> 6;
                self.chr_mode = (data & 0b1000_0000) >> 7;
                proof {
                    crate::bit_facts::lemma_u8_masks();
                    assert(data & 7 < 8);
                }
            } else {
                let d = data as usize;
                let value = if self.register <= 1 {
                    d & 0xfe
                } else if self.register >= 6 {
                    d & 0b0011_1111
                } else {
                    d
                };
                self.registers[self.register] = value;
            }
            self.update_banks(config);
        } else if 0xa000 <= addr && addr <= 0xbfff {
            if even {
                let mirroring = if (data & 1) == 1 { Mirroring::Horizontal } else { Mirroring::Vertical };
                config.set_mirroring(mirroring);
            }
        } else if 0xc000 <= addr && addr <= 0xdfff {
            if even {
                self.irq_load_value = if data > 0 { data - 1 } else { data };
            } else {
                self.irq_counter = 0;
                self.irq_reload = true;
            }
        } else if 0xe000 <= addr {
            self.irq_enabled = !even;
        }
    }

    /// Clocks the scanline counter; returns true when an IRQ should be raised.
    pub fn on_scanline(&mut self) -> (r: bool)
        ensures
            mmc3_scanline(*old(self), *final(self), r),
    {
        if self.irq_counter == 0 || self.irq_reload {
            self.irq_counter = self.irq_load_value;
        } else {
            self.irq_counter = self.irq_counter - 1;
        }
        self.irq_reload = false;
        self.irq_counter == 0 && self.irq_enabled
    }

    fn update_banks(&mut self, config: &mut MapperConfig)
        requires
            old(config).wf(),
            old(config).prg_count() >= 2,
        ensures
            final(config).wf(),
            *final(self) == *old(self),
            final(config).total_prg_rom_size == old(config).total_prg_rom_size,
            final(config).total_chr_rom_size == old(config).total_chr_rom_size,
            final(config).prg_bank_size == old(config).prg_bank_size,
            final(config).chr_bank_size == old(config).chr_bank_size,
            final(config).mirroring == old(config).mirroring,
            *final(config) == (MapperConfig {
                prg_banks: final(config).prg_banks,
                chr_banks: final(config).chr_banks,
                ..*old(config)
            }),
            forall|i: int| 0 <= i < 8 ==> #[trigger] final(config).chr_banks@[i]
                == mmc3_chr_source(old(self).chr_mode, old(self).registers@, i)
                    & (old(config).chr_count() - 1) as usize,
            final(config).prg_banks@[0] == (if old(self).prg_mode == 0 { old(self).registers[6] }
                else { (old(config).prg_count() - 2) as usize }) & (old(config).prg_count() - 1) as usize,
            final(config).prg_banks@[1] == old(self).registers[7] & (old(config).prg_count() - 1) as usize,
            final(config).prg_banks@[2] == (if old(self).prg_mode == 0 { (old(config).prg_count() - 2) as usize }
                else { old(self).registers[6] }) & (old(config).prg_count() - 1) as usize,
            final(config).prg_banks@[3] == (old(config).prg_count() - 1) as usize,
            final(config).prg_banks@.len() == old(config).prg_banks@.len(),
            final(config).chr_banks@.len() == old(config).chr_banks@.len(),
            forall|i: int| 4 <= i < old(config).prg_banks@.len() ==> #[trigger] final(config).prg_banks@[i]
                == old(config).prg_banks@[i],
            forall|i: int| 8 <= i < old(config).chr_banks@.len() ==> #[trigger] final(config).chr_banks@[i]
                == old(config).chr_banks@[i],
    {
        let r = self.registers;
        let even = self.chr_mode == 0;
        config.set_chr_bank(0, if even { r[0] & 0xfe } else { r[2] });
        config.set_chr_bank(1, if even { r[0] | 1 } else { r[3] });
        config.set_chr_bank(2, if even { r[1] & 0xfe } else { r[4] });
        config.set_chr_bank(3, if even { r[1] | 1 } else { r[5] });
        config.set_chr_bank(4, if even { r[2] } else { r[0] & 0xfe });
        config.set_chr_bank(5, if even { r[3] } else { r[0] | 1 });
        config.set_chr_bank(6, if even { r[4] } else { r[1] & 0xfe });
        config.set_chr_bank(7, if even { r[5] } else { r[1] | 1 });

        let even = self.prg_mode == 0;
        let count = config.get_prg_bank_count();
        config.set_prg_bank(0, if even { r[6] } else { count - 2 });
        config.set_prg_bank(1, r[7]);
        config.set_prg_bank(2, if even { count - 2 } else { r[6] });
        config.set_prg_bank(3, count - 1);
        proof {
            let m = (count - 1) as usize;
            crate::bit_facts::lemma_usize_masks();
            assert(m & m == m);
        }
    }
}

/// Law: in CHR mode 0 the four 1 KB windows of $0000-$0FFF show R0 and R1 as 2 KB banks
/// (the even bank below each value, then the next one) and the four of $1000-$1FFF show
/// R2 to R5; in CHR mode 1 the two halves trade places.
pub proof fn lemma_mmc3_chr_windows(registers: Seq<usize>, i: int)
    requires
        registers.len() == 8,
        0 <= i < 8,
        forall|j: int| 0 <= j < 8 ==> #[trigger] registers[j] < 256,
    ensures
        i < 4 ==> mmc3_chr_source(0, registers, i) == 2 * (registers[i / 2] / 2) + i % 2,
        i >= 4 ==> mmc3_chr_source(0, registers, i) == registers[i - 2],
        mmc3_chr_source(1, registers, i) == mmc3_chr_source(0, registers, (i + 4) % 8),
{
    let r0: usize = registers[0];
    let r1: usize = registers[1];
    crate::bit_facts::lemma_index_fields();
    assert(r0 & 0xfe == 2 * (r0 / 2) && r0 | 1 == 2 * (r0 / 2) + 1);
    assert(r1 & 0xfe == 2 * (r1 / 2) && r1 | 1 == 2 * (r1 / 2) + 1);
}

/// Law: a write to an even address of $8000-$9FFF selects bank register `data % 8`, the
/// PRG mode from bit 6 and the CHR mode from bit 7, and leaves the registers; a write to an
/// odd address stores `data` in the selected register, R0 and R1 rounded down to an even
/// bank and R6 and R7 kept to six bits.
pub proof fn lemma_mmc3_bank_registers(b0: MapperMMC3, c0: MapperConfig, b1: MapperMMC3, c1: MapperConfig,
    addr: u16, data: u8)
    requires
        b0.wf(),
        mmc3_prg_write(b0, c0, b1, c1, addr, data),
        0x8000 <= addr <= 0x9fff,
    ensures
        addr % 2 == 0 ==> b1.register == data % 8 && b1.prg_mode == (data / 64) % 2
            && b1.chr_mode == data / 128 && b1.registers == b0.registers,
        addr % 2 == 1 ==> b1.registers@[b0.register as int] as int == (if b0.register <= 1 {
            data - data % 2
        } else if b0.register >= 6 {
            (data % 64) as int
        } else {
            data as int
        }),
{
    let d: u8 = data;
    let du: usize = data as usize;
    crate::bit_facts::lemma_word_fields();
    crate::bit_facts::lemma_u8_fields();
    crate::bit_facts::lemma_index_fields();
    assert(addr & 1 == addr % 2);
    assert(d & 7 == d % 8 && (d & 0x40) >> 6 == (d / 64) % 2 && (d & 0x80) >> 7 == d / 128);
    assert(du & 0xfe == 2 * (du / 2) && du & 0x3f == du % 64);
}


} // verus!
