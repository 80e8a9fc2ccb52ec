use vstd::prelude::*;
use crate::mappers::mapper_config::{MapperConfig, is_power_of_two_count, lemma_bank_mask};
use crate::rom::Rom;

verus! {

/// CNRom, Mapper 3: an 8 KB switchable CHR bank.
pub struct MapperCNRom;

/// A write to cartridge space selects the 8 KB CHR bank.
pub open spec fn cnrom_prg_write(c0: MapperConfig, c1: MapperConfig, data: u8) -> bool {
    &&& c1 == (MapperConfig { chr_banks: c1.chr_banks, ..c0 })
    &&& c1.chr_banks@ == c0.chr_banks@.update(
            0, (data as usize & (c0.chr_count() - 1) as usize))
}

impl MapperCNRom {
    pub fn new(_rom: &Rom, _config: &mut MapperConfig) -> (r: Self)
        ensures
            *final(_config) == *old(_config),
    {
        MapperCNRom
    }

    /// Any write to $8000-$FFFF selects the CHR bank.
    pub fn write_prg(&mut self, _addr: u16, data: u8, config: &mut MapperConfig)
        requires
            old(config).wf(),
        ensures
            final(config).wf(),
            cnrom_prg_write(*old(config), *final(config), data),
    {
        config.set_chr_bank(0, data as usize);
    }
}

/// Law: with a power-of-two number of 8 KB CHR banks, a write selects CHR bank `data`
/// modulo the count and leaves the PRG banks and the mirroring as they were.
pub proof fn lemma_cnrom_bank(c0: MapperConfig, c1: MapperConfig, data: u8)
    requires
        cnrom_prg_write(c0, c1, data),
        c0.sizes_wf(),
        is_power_of_two_count(c0.chr_count()),
    ensures
        c1.chr_banks@[0] as int == data as int % c0.chr_count(),
        c1.prg_banks == c0.prg_banks,
        c1.mirroring == c0.mirroring,
{
    lemma_bank_mask(data as usize, c0.chr_count());
}

} // verus!
