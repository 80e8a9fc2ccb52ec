use vstd::prelude::*;
use crate::mappers::mapper_config::MapperConfig;
use crate::rom::Rom;

verus! {

/// NROM, mapper 0: 16 or 32 KB of PRG, no bank switching.
pub struct Mapper0;

impl Mapper0 {
    pub fn new(rom: &Rom, config: &mut MapperConfig) -> (r: Self)
        requires
            old(config).sizes_wf(),
            old(config).banks_zero(),
            old(config).total_prg_rom_size == rom.prg_rom@.len(),
            rom.prg_rom@.len() == 0x4000 || rom.prg_rom@.len() >= 0x8000,
        ensures
            final(config).sizes_wf(),
            final(config).banks_zero(),
            final(config).prg_count() >= 1,
            rom.prg_rom@.len() == 0x4000 ==> final(config).prg_bank_size == 0x4000,
            rom.prg_rom@.len() != 0x4000 ==> final(config).prg_bank_size == 0x8000,
            *final(config) == (MapperConfig {
                prg_bank_size: final(config).prg_bank_size,
                prg_bank_size_bit: final(config).prg_bank_size_bit,
                prg_bank_size_mask: final(config).prg_bank_size_mask,
                prg_banks: final(config).prg_banks,
                ..*old(config)
            }),
    {
        if rom.prg_rom.len() == 0x4000 {
            // 16KB, mirror 0x8000 - 0xbfff and 0xc000 - 0xffff
            config.set_prg_bank_size(0x4000);
            config.set_prg_bank(0, 0);
            config.set_prg_bank(1, 0);
            assert(config.prg_banks@ =~= old(config).prg_banks@);
        } else {
            // 32KB, just one bank 0x8000 - 0xffff
            config.set_prg_bank_size(0x8000);
        }
        Mapper0
    }
}

} // verus!
