use vstd::prelude::*;
use crate::mappers::mapper_config::{MapperConfig, is_power_of_two_count, lemma_bank_mask};
use crate::rom::Rom;

verus! {

/// GxRom, Mapper 66: 32 KB PRG banks (bits 4..5) and 8 KB CHR banks (bits 0..1).
pub struct MapperGxRom;

/// A write to cartridge space selects the PRG bank (bits 4-5) and the CHR bank
/// (bits 0-1).
pub open spec fn gxrom_prg_write(c0: MapperConfig, c1: MapperConfig, data: u8) -> bool {
    &&& c1.prg_banks@ == c0.prg_banks@.update(
            0, (((data as usize & 0x30) >> 4) & (c0.prg_count() - 1) as usize))
    &&& c1.chr_banks@ == c0.chr_banks@.update(
            0, ((data as usize & 0x3) & (c0.chr_count() - 1) as usize))
    &&& c1 == (MapperConfig {
            prg_banks: c1.prg_banks,
            chr_banks: c1.chr_banks,
            ..c0
        })
}

impl MapperGxRom {
    pub fn new(_rom: &Rom, config: &mut MapperConfig) -> (r: Self)
        requires
            old(config).sizes_wf(),
        ensures
            final(config).sizes_wf(),
            *final(config) == (MapperConfig {
                prg_bank_size: 0x8000,
                prg_bank_size_bit: final(config).prg_bank_size_bit,
                prg_bank_size_mask: 0x7fff,
                ..*old(config)
            }),
    {
        config.set_prg_bank_size(0x8000);
        MapperGxRom
    }

    pub fn write_prg(&mut self, _addr: u16, data: u8, config: &mut MapperConfig)
        requires
            old(config).wf(),
        ensures
            final(config).wf(),
            gxrom_prg_write(*old(config), *final(config), data),
    {
        config.set_prg_bank(0, (data as usize & 0x30) >> 4);
        config.set_chr_bank(0, data as usize & 0x3);
    }
}

/// Law: with power-of-two bank counts, a write selects the 32 KB PRG bank from bits 4-5
/// (`data / 16 % 4`) and the 8 KB CHR bank from bits 0-1 (`data % 4`), each modulo its bank
/// count, and leaves the mirroring as it was.
pub proof fn lemma_gxrom_banks(c0: MapperConfig, c1: MapperConfig, data: u8)
    requires
        gxrom_prg_write(c0, c1, data),
        c0.sizes_wf(),
        is_power_of_two_count(c0.prg_count()),
        is_power_of_two_count(c0.chr_count()),
    ensures
        c1.prg_banks@[0] as int == ((data / 16) % 4) as int % c0.prg_count(),
        c1.chr_banks@[0] as int == (data % 4) as int % c0.chr_count(),
        c1.mirroring == c0.mirroring,
{
    let d: usize = data as usize;
    crate::bit_facts::lemma_index_fields();
    assert((d & 0x30) >> 4usize == (d / 16) % 4 && d & 3 == d % 4);
    lemma_bank_mask((d & 0x30) >> 4usize, c0.prg_count());
    lemma_bank_mask(d & 3, c0.chr_count());
}

} // verus!
