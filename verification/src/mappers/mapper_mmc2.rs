use vstd::prelude::*;
use crate::mappers::mapper_config::MapperConfig;
use crate::rom::{Mirroring, Rom};

verus! {

/// MMC2, Mapper 9: the CHR bank of each pattern table is chosen by a latch that the
/// PPU flips when it fetches tiles $FD or $FE.
pub struct MapperMMC2 {
    pub left_latch: usize,
    pub right_latch: usize,
    pub left_chr_page: [usize; 2],
    pub right_chr_page: [usize; 2],
    pub need_update: bool,
}

/// A CPU write: $A000 selects the PRG bank, $B000-$E000 the four CHR pages,
/// $F000 the mirroring; the CHR banks follow the pages the latches select. Every bank,
/// page and latch that the address does not name keeps its value.
pub open spec fn mmc2_prg_write(b0: MapperMMC2, c0: MapperConfig, b1: MapperMMC2, c1: MapperConfig, addr: u16, data: u8) -> bool {
    &&& b1.left_latch == b0.left_latch
    &&& b1.right_latch == b0.right_latch
    &&& b1.need_update == b0.need_update
    &&& addr >> 12 == 0xa ==> c1.prg_banks@ == c0.prg_banks@.update(0,
            (data as usize & 0xf) & (c0.prg_count() - 1) as usize)
    &&& addr >> 12 != 0xa ==> c1.prg_banks == c0.prg_banks
    &&& addr >> 12 == 0xb ==> b1.left_chr_page@ == b0.left_chr_page@.update(0, data as usize & 0x1f)
    &&& addr >> 12 == 0xc ==> b1.left_chr_page@ == b0.left_chr_page@.update(1, data as usize & 0x1f)
    &&& addr >> 12 == 0xd ==> b1.right_chr_page@ == b0.right_chr_page@.update(0, data as usize & 0x1f)
    &&& addr >> 12 == 0xe ==> b1.right_chr_page@ == b0.right_chr_page@.update(1, data as usize & 0x1f)
    &&& !(addr >> 12 == 0xb || addr >> 12 == 0xc) ==> b1.left_chr_page == b0.left_chr_page
    &&& !(addr >> 12 == 0xd || addr >> 12 == 0xe) ==> b1.right_chr_page == b0.right_chr_page
    &&& addr >> 12 == 0xb || addr >> 12 == 0xc ==> c1.chr_banks@ == c0.chr_banks@.update(0,
            b1.left_chr_page[b1.left_latch as int] & (c0.chr_count() - 1) as usize)
    &&& addr >> 12 == 0xd || addr >> 12 == 0xe ==> c1.chr_banks@ == c0.chr_banks@.update(1,
            b1.right_chr_page[b1.right_latch as int] & (c0.chr_count() - 1) as usize)
    &&& !(0xb <= addr >> 12 <= 0xe) ==> c1.chr_banks == c0.chr_banks
    &&& addr >> 12 == 0xb ==> b1.left_chr_page[0] == data as usize & 0x1f
    &&& addr >> 12 == 0xc ==> b1.left_chr_page[1] == data as usize & 0x1f
    &&& addr >> 12 == 0xd ==> b1.right_chr_page[0] == data as usize & 0x1f
    &&& addr >> 12 == 0xe ==> b1.right_chr_page[1] == data as usize & 0x1f
    &&& addr >> 12 == 0xb || addr >> 12 == 0xc ==> c1.chr_banks@[0]
            == b1.left_chr_page[b1.left_latch as int]
                & (c0.chr_count() - 1) as usize
    &&& addr >> 12 == 0xd || addr >> 12 == 0xe ==> c1.chr_banks@[1]
            == b1.right_chr_page[b1.right_latch as int]
                & (c0.chr_count() - 1) as usize
    &&& addr >> 12 == 0xf ==> c1.mirroring
            == if data & 1 == 0 { Mirroring::Vertical } else { Mirroring::Horizontal }
    &&& addr >> 12 < 0xa ==> b1 == b0 && c1 == c0
    &&& addr >> 12 != 0xf ==> c1.mirroring == c0.mirroring
    &&& c1 == (MapperConfig {
            prg_banks: c1.prg_banks,
            chr_banks: c1.chr_banks,
            mirroring: c1.mirroring,
            ..c0
        })
}

/// Before a CHR read: pending CHR banks are applied from the latched pages, and a
/// read of tile $FD or $FE (at $0FD8, $0FE8, $1FD8-$1FDF, $1FE8-$1FEF) flips
/// the latch of its half and marks the banks for update.
pub open spec fn mmc2_chr_read_hook(b0: MapperMMC2, c0: MapperConfig, b1: MapperMMC2, c1: MapperConfig, addr: u16) -> bool {
    &&& b0.need_update ==> c1.chr_banks@[0]
            == b0.left_chr_page[b0.left_latch as int] & (c0.chr_count() - 1) as usize
            && c1.chr_banks@[1]
            == b0.right_chr_page[b0.right_latch as int] & (c0.chr_count() - 1) as usize
    &&& !b0.need_update ==> c1 == c0
    &&& c1 == (MapperConfig { chr_banks: c1.chr_banks, ..c0 })
    &&& addr == 0xfd8 ==> b1.left_latch == 0 && b1.need_update
    &&& addr == 0xfe8 ==> b1.left_latch == 1 && b1.need_update
    &&& 0x1fd8 <= addr <= 0x1fdf ==> b1.right_latch == 0 && b1.need_update
    &&& 0x1fe8 <= addr <= 0x1fef ==> b1.right_latch == 1 && b1.need_update
    &&& !(addr == 0xfd8 || addr == 0xfe8 || 0x1fd8 <= addr <= 0x1fdf || 0x1fe8 <= addr <= 0x1fef)
            ==> b1.left_latch == b0.left_latch
            && b1.right_latch == b0.right_latch
            && b1.need_update == (b0.need_update && false)
}

impl MapperMMC2 {
    pub open spec fn wf(self) -> bool {
        self.left_latch < 2 && self.right_latch < 2
    }

    pub fn new(_rom: &Rom, config: &mut MapperConfig) -> (r: Self)
        requires
            old(config).sizes_wf(),
            old(config).banks_zero(),
            old(config).total_prg_rom_size >= 0x6000,
            old(config).total_chr_rom_size >= 0x2000,
        ensures
            r.wf(),
            final(config).wf(),
            final(config).on_read_chr_hook,
            final(config).prg_bank_size == 0x2000,
            final(config).chr_bank_size == 0x1000,
            final(config).prg_banks@[1] == ((final(config).prg_count() - 3) as usize
                & (final(config).prg_count() - 1) as usize),
            final(config).prg_banks@[2] == ((final(config).prg_count() - 2) as usize
                & (final(config).prg_count() - 1) as usize),
            final(config).prg_banks@[3] == ((final(config).prg_count() - 1) as usize
                & (final(config).prg_count() - 1) as usize),
            final(config).total_prg_rom_size == old(config).total_prg_rom_size,
            final(config).total_chr_rom_size == old(config).total_chr_rom_size,
            final(config).mirroring == old(config).mirroring,
            final(config).is_custom_chr == old(config).is_custom_chr,
            final(config).is_custom_prg == old(config).is_custom_prg,
            final(config).is_custom_nametable == old(config).is_custom_nametable,
    {
        config.set_prg_bank_size(0x2000);
        config.set_chr_bank_size(0x1000);
        assert(config.prg_count() >= 3 && config.chr_count() >= 2);
        let count = config.get_prg_bank_count();
        config.set_prg_bank(1, count - 3);
        config.set_prg_bank(2, count - 2);
        config.set_prg_bank(3, count - 1);
        config.on_read_chr_hook = true;
        Self {
            left_latch: 1,
            right_latch: 1,
            left_chr_page: [0; 2],
            right_chr_page: [0; 2],
            need_update: false,
        }
    }

    /// $A000 selects the PRG bank at $8000, $B000-$E000 the four CHR pages and $F000
    /// the mirroring.
    pub fn write_prg(&mut self, addr: u16, data: u8, config: &mut MapperConfig)
        requires
            old(self).wf(),
            old(config).wf(),
        ensures
            final(self).wf(),
            final(config).wf(),
            mmc2_prg_write(*old(self), *old(config), *final(self), *final(config), addr, data),
    {
        let data = data as usize;
        let high = addr >> 12;
        if high == 0xa {
            config.set_prg_bank(0, data & 0xf);
        } else if high == 0xb {
            self.left_chr_page[0] = data & 0x1f;
            let bank = self.left_chr_page[self.left_latch];
            config.set_chr_bank(0, bank);
        } else if high == 0xc {
            self.left_chr_page[1] = data & 0x1f;
            let bank = self.left_chr_page[self.left_latch];
            config.set_chr_bank(0, bank);
        } else if high == 0xd {
            self.right_chr_page[0] = data & 0x1f;
            let bank = self.right_chr_page[self.right_latch];
            config.set_chr_bank(1, bank);
        } else if high == 0xe {
            self.right_chr_page[1] = data & 0x1f;
            let bank = self.right_chr_page[self.right_latch];
            config.set_chr_bank(1, bank);
        } else if high == 0xf {
            config.set_mirroring(if data & 0x01 == 0 { Mirroring::Vertical } else { Mirroring::Horizontal });
        }
    }

    /// Called before each CHR read: applies a pending latch change, then flips the left
    /// latch on $0FD8/$0FE8 and the right latch on $1FD8-$1FDF/$1FE8-$1FEF.
    pub fn on_read_chr(&mut self, addr: u16, config: &mut MapperConfig)
        requires
            old(self).wf(),
            old(config).wf(),
        ensures
            final(self).wf(),
            final(config).wf(),
            final(self).left_chr_page == old(self).left_chr_page,
            final(self).right_chr_page == old(self).right_chr_page,
            mmc2_chr_read_hook(*old(self), *old(config), *final(self), *final(config), addr),
    {
        if self.need_update {
            config.set_chr_bank(0, self.left_chr_page[self.left_latch]);
            config.set_chr_bank(1, self.right_chr_page[self.right_latch]);
            self.need_update = false;
        }
        if addr == 0xfd8 {
            self.left_latch = 0;
            self.need_update = true;
        } else if addr == 0xfe8 {
            self.left_latch = 1;
            self.need_update = true;
        } else if 0x1fd8 <= addr && addr <= 0x1fdf {
            self.right_latch = 0;
            self.need_update = true;
        } else if 0x1fe8 <= addr && addr <= 0x1fef {
            self.right_latch = 1;
            self.need_update = true;
        }
    }
}

} // verus!
