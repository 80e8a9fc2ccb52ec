use vstd::prelude::*;
use crate::mappers::mapper_config::{MapperConfig, is_power_of_two_count, lemma_bank_mask};
use crate::rom::{Mirroring, Rom};

verus! {

/// AxRom, Mapper 7: 32 KB PRG banks and one-screen mirroring selected by bit 4.
pub struct MapperAxRom;

/// A write to cartridge space selects the 32 KB PRG bank and the single
/// nametable screen.
pub open spec fn axrom_prg_write(c0: MapperConfig, c1: MapperConfig, data: u8) -> bool {
    &&& c1.prg_banks@ == c0.prg_banks@.update(
            0, (data as usize & (c0.prg_count() - 1) as usize))
    &&& c1.mirroring == if data & 0x10 == 0 { Mirroring::ScreenA } else { Mirroring::ScreenB }
    &&& c1 == (MapperConfig {
            prg_banks: c1.prg_banks,
            mirroring: c1.mirroring,
            ..c0
        })
}

impl MapperAxRom {
    pub fn new(_rom: &Rom, config: &mut MapperConfig) -> (r: Self)
        requires
            old(config).sizes_wf(),
        ensures
            final(config).sizes_wf(),
            *final(config) == (MapperConfig {
                prg_bank_size: 0x8000,
                prg_bank_size_bit: final(config).prg_bank_size_bit,
                prg_bank_size_mask: 0x7fff,
                mirroring: Mirroring::ScreenA,
                ..*old(config)
            }),
    {
        config.set_prg_bank_size(0x8000);
        config.set_mirroring(Mirroring::ScreenA);
        MapperAxRom
    }

    /// Bits 0..2 select the PRG bank, bit 4 the one-screen nametable.
    pub fn write_prg(&mut self, _addr: u16, data: u8, config: &mut MapperConfig)
        requires
            old(config).wf(),
        ensures
            final(config).wf(),
            axrom_prg_write(*old(config), *final(config), data),
    {
        config.set_prg_bank(0, data as usize);
        config.set_mirroring(if data & 0x10 == 0 { Mirroring::ScreenA } else { Mirroring::ScreenB });
    }
}

/// Law: with a power-of-two number of 32 KB banks, a write selects PRG bank `data` modulo
/// the count, and shows the second nametable on every screen when bit 4 is set and the
/// first one when it is clear; the CHR banks stay.
pub proof fn lemma_axrom_write(c0: MapperConfig, c1: MapperConfig, data: u8)
    requires
        axrom_prg_write(c0, c1, data),
        c0.sizes_wf(),
        is_power_of_two_count(c0.prg_count()),
    ensures
        c1.prg_banks@[0] as int == data as int % c0.prg_count(),
        (data / 16) % 2 == 1 ==> c1.mirroring == Mirroring::ScreenB,
        (data / 16) % 2 == 0 ==> c1.mirroring == Mirroring::ScreenA,
        c1.chr_banks == c0.chr_banks,
{
    crate::bit_facts::lemma_u8_fields();
    assert(data & 0x10 == 16 * ((data / 16) % 2));
    lemma_bank_mask(data as usize, c0.prg_count());
}

} // verus!
