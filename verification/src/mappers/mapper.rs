use vstd::prelude::*;
use crate::mappers::mapper0::Mapper0;
use crate::mappers::mapper19::{Mapper19, ciram_after_write, n163_cpu_cycle, n163_prg_write};
use crate::mappers::mapper_axrom::{MapperAxRom, axrom_prg_write};
use crate::mappers::mapper_cnrom::{MapperCNRom, cnrom_prg_write};
use crate::mappers::mapper_config::MapperConfig;
use crate::mappers::mapper_gxrom::{MapperGxRom, gxrom_prg_write};
use crate::mappers::mapper_mmc1::{MapperMMC1, mmc1_prg_write};
use crate::mappers::mapper_mmc2::{MapperMMC2, mmc2_chr_read_hook, mmc2_prg_write};
use crate::mappers::mapper_mmc3::{MapperMMC3, mmc3_prg_write, mmc3_scanline};
use crate::mappers::mapper_uxrom::{MapperUxROM, uxrom_prg_write};

verus! {

/// The cartridge boards this emulator supports, each with its own registers.
pub enum Mapper {
    Nrom(Mapper0),
    Mmc1(MapperMMC1),
    UxRom(MapperUxROM),
    CnRom(MapperCNRom),
    Mmc3(MapperMMC3),
    AxRom(MapperAxRom),
    Mmc2(MapperMMC2),
    Namco163(Mapper19),
    GxRom(MapperGxRom),
}

/// What a CPU write to cartridge space does to the board and to the shared bank
/// configuration, board by board.
pub open spec fn prg_write_effect(m0: Mapper, c0: MapperConfig, m1: Mapper, c1: MapperConfig, addr: u16, data: u8) -> bool {
    &&& m0 is Nrom ==> m1 == m0 && c1 == c0
    &&& m0 is Mmc1 ==> m1 is Mmc1 && mmc1_prg_write(m0->Mmc1_0, c0, m1->Mmc1_0, c1, addr, data)
    &&& m0 is UxRom ==> m1 is UxRom && uxrom_prg_write(c0, c1, data)
    &&& m0 is CnRom ==> m1 is CnRom && cnrom_prg_write(c0, c1, data)
    &&& m0 is AxRom ==> m1 is AxRom && axrom_prg_write(c0, c1, data)
    &&& m0 is GxRom ==> m1 is GxRom && gxrom_prg_write(c0, c1, data)
    &&& m0 is Mmc2 ==> m1 is Mmc2 && mmc2_prg_write(m0->Mmc2_0, c0, m1->Mmc2_0, c1, addr, data)
    &&& m0 is Mmc3 ==> m1 is Mmc3 && mmc3_prg_write(m0->Mmc3_0, c0, m1->Mmc3_0, c1, addr, data)
    &&& m0 is Namco163 ==> m1 is Namco163 && n163_prg_write(m0->Namco163_0, c0, m1->Namco163_0, c1, addr,
        data)
}

impl Mapper {
    /// The board's own invariant, and what it needs of the shared bank configuration.
    pub open spec fn wf_with(self, config: MapperConfig) -> bool {
        &&& config.wf()
        &&& match self {
            Mapper::Mmc1(m) => m.wf() && config.is_custom_prg && config.is_custom_chr,
            Mapper::Mmc2(m) => m.wf(),
            Mapper::Mmc3(m) => m.wf() && config.prg_count() >= 2,
            Mapper::Namco163(m) => m.wf() && 1 <= config.prg_count() <= 255,
            _ => true,
        }
    }

    /// PRG read for boards that map PRG themselves; 0 for the others.
    pub fn read_prg(&self, addr: u16) -> (r: u8)
        requires
            self is Mmc1 ==> self->Mmc1_0.wf(),
        ensures
            self is Mmc1 ==> r == crate::mappers::mapper_mmc1::mmc1_prg_byte(self->Mmc1_0, addr),
            !(self is Mmc1) ==> r == 0,
    {
        match self {
            Mapper::Mmc1(m) => m.read_prg(addr),
            _ => 0,
        }
    }

    /// Lets the board react to a CPU write at `addr` ($4020-$FFFF).
    pub fn write_prg(&mut self, addr: u16, data: u8, config: &mut MapperConfig)
        requires
            old(self).wf_with(*old(config)),
        ensures
            final(self).wf_with(*final(config)),
            final(config).total_prg_rom_size == old(config).total_prg_rom_size,
            final(config).total_chr_rom_size == old(config).total_chr_rom_size,
            final(config).prg_bank_size == old(config).prg_bank_size,
            final(config).chr_bank_size == old(config).chr_bank_size,
            final(config).prg_bank_size_bit == old(config).prg_bank_size_bit,
            final(config).chr_bank_size_bit == old(config).chr_bank_size_bit,
            final(config).prg_bank_size_mask == old(config).prg_bank_size_mask,
            final(config).chr_bank_size_mask == old(config).chr_bank_size_mask,
            final(config).is_custom_prg == old(config).is_custom_prg,
            final(config).is_custom_chr == old(config).is_custom_chr,
            final(config).is_custom_nametable == old(config).is_custom_nametable,
            final(config).on_read_chr_hook == old(config).on_read_chr_hook,
            *old(self) is Nrom ==> *final(config) == *old(config),
            old(config).mirroring != crate::rom::Mirroring::SingleScreen
                ==> final(config).mirroring != crate::rom::Mirroring::SingleScreen,
            *old(self) is Mmc1 <==> *final(self) is Mmc1,
            *old(self) is Mmc2 <==> *final(self) is Mmc2,
            *old(self) is Namco163 <==> *final(self) is Namco163,
            *old(self) is Namco163 ==> (*final(self))->Namco163_0.chr_rom == (*old(self))->Namco163_0.chr_rom,
            *old(self) is Mmc1 ==> (*final(self))->Mmc1_0.chr_rom == (*old(self))->Mmc1_0.chr_rom,
            prg_write_effect(*old(self), *old(config), *final(self), *final(config), addr, data),
    {
        match self {
            Mapper::Nrom(_) => {},
            Mapper::Mmc1(m) => m.write_prg(addr, data, config),
            Mapper::UxRom(m) => m.write_prg(addr, data, config),
            Mapper::CnRom(m) => m.write_prg(addr, data, config),
            Mapper::Mmc3(m) => m.write_prg(addr, data, config),
            Mapper::AxRom(m) => m.write_prg(addr, data, config),
            Mapper::Mmc2(m) => m.write_prg(addr, data, config),
            Mapper::Namco163(m) => m.write_prg(addr, data, config),
            Mapper::GxRom(m) => m.write_prg(addr, data, config),
        }
    }

    /// CHR read for boards that map CHR themselves; 0 for the others.
    pub fn read_chr(&mut self, addr: u16) -> (r: u8)
        requires
            addr < 0x2000,
            *old(self) is Mmc1 ==> (*old(self))->Mmc1_0.wf(),
            *old(self) is Namco163 ==> (*old(self))->Namco163_0.wf(),
        ensures
            *final(self) == *old(self),
            *old(self) is Mmc1 ==> r == (*old(self))->Mmc1_0.chr_rom@[(*old(self))->Mmc1_0.chr_index_of(addr)],
            *old(self) is Namco163 ==> r == (*old(self))->Namco163_0.chr_value(addr),
            !(*old(self) is Mmc1 || *old(self) is Namco163) ==> r == 0,
    {
        proof {
            crate::bit_facts::lemma_u16_masks();
            assert(addr & 0x3fff <= addr);
        }
        match self {
            Mapper::Mmc1(m) => m.read_chr(addr),
            Mapper::Namco163(m) => m.read_chr(addr),
            _ => 0,
        }
    }

    /// CHR write for boards that map CHR themselves; ignored by the others.
    pub fn write_chr(&mut self, addr: u16, data: u8)
        requires
            addr < 0x2000,
            *old(self) is Mmc1 ==> (*old(self))->Mmc1_0.wf(),
        ensures
            *old(self) is Mmc1 ==> *final(self) is Mmc1 && (*final(self))->Mmc1_0.wf()
                && (*final(self))->Mmc1_0.chr_rom@ == (*old(self))->Mmc1_0.chr_rom@.update(
                    (*old(self))->Mmc1_0.chr_index_of(addr), data),
            *old(self) is Namco163 ==> *final(self) is Namco163
                && (*final(self))->Namco163_0.chr_rom == (*old(self))->Namco163_0.chr_rom
                && (*final(self))->Namco163_0.ciram@ == ciram_after_write((*old(self))->Namco163_0, addr, data)
                && (*final(self))->Namco163_0 == (Mapper19 { ciram: (*final(self))->Namco163_0.ciram, ..(*old(self))->Namco163_0 }),
            !(*old(self) is Mmc1 || *old(self) is Namco163) ==> *final(self) == *old(self),
            *old(self) is Mmc1 ==> (*final(self))->Mmc1_0 == (MapperMMC1 { chr_rom: (*final(self))->Mmc1_0.chr_rom, ..(*old(self))->Mmc1_0 }),
    {
        proof {
            crate::bit_facts::lemma_u16_masks();
            assert(addr & 0x3fff <= addr);
        }
        match self {
            Mapper::Mmc1(m) => m.write_chr(addr, data),
            Mapper::Namco163(m) => m.write_chr(addr, data),
            _ => {},
        }
    }

    /// Nametable read for boards with their own nametable mapping; 0 for the others.
    pub fn read_nametable(&self, address: usize) -> (r: u8)
        requires
            0x2000 <= address < 0x3000,
            self is Namco163 ==> self->Namco163_0.wf(),
        ensures
            self is Namco163 ==> r == self->Namco163_0.chr_value(address as u16),
            !(self is Namco163) ==> r == 0,
    {
        match self {
            Mapper::Namco163(m) => m.read_nametable(address),
            _ => 0,
        }
    }

    /// Nametable write for boards with their own nametable mapping.
    pub fn write_nametable(&mut self, address: usize, value: u8)
        requires
            0x2000 <= address < 0x3000,
        ensures
            *old(self) is Namco163 ==> *final(self) is Namco163
                && (*final(self))->Namco163_0 == (Mapper19 { ciram: (*final(self))->Namco163_0.ciram, ..(*old(self))->Namco163_0 })
                && (*final(self))->Namco163_0.ciram@ == ciram_after_write((*old(self))->Namco163_0, address as u16, value),
            !(*old(self) is Namco163) ==> *final(self) == *old(self),
    {
        match self {
            Mapper::Namco163(m) => m.write_nametable(address, value),
            _ => {},
        }
    }

    /// Scanline hook; true when the board raises an IRQ.
    pub fn on_scanline(&mut self) -> (r: bool)
        ensures
            *old(self) is Mmc3 <==> *final(self) is Mmc3,
            *old(self) is Mmc3 ==> (*final(self))->Mmc3_0.wf() == (*old(self))->Mmc3_0.wf()
                && r == ((*final(self))->Mmc3_0.irq_counter == 0 && (*old(self))->Mmc3_0.irq_enabled),
            !(*old(self) is Mmc3) ==> !r && *final(self) == *old(self),
            *old(self) is Mmc3 ==> mmc3_scanline((*old(self))->Mmc3_0, (*final(self))->Mmc3_0, r),
    {
        match self {
            Mapper::Mmc3(m) => m.on_scanline(),
            _ => false,
        }
    }

    /// CPU cycle hook; true when the board raises an IRQ.
    pub fn on_cpu_cycle(&mut self) -> (r: bool)
        ensures
            *old(self) is Namco163 <==> *final(self) is Namco163,
            *old(self) is Namco163 ==> (*final(self))->Namco163_0.chr_rom == (*old(self))->Namco163_0.chr_rom,
            !(*old(self) is Namco163) ==> !r && *final(self) == *old(self),
            *old(self) is Namco163 ==> n163_cpu_cycle((*old(self))->Namco163_0, (*final(self))->Namco163_0, r),
    {
        match self {
            Mapper::Namco163(m) => m.on_cpu_cycle(),
            _ => false,
        }
    }

    /// Hook called before each CHR read (MMC2 latches).
    pub fn on_read_chr(&mut self, address: u16, config: &mut MapperConfig)
        requires
            old(self).wf_with(*old(config)),
        ensures
            final(self).wf_with(*final(config)),
            !(*old(self) is Mmc2) ==> *final(self) == *old(self) && *final(config) == *old(config),
            *old(self) is Mmc2 <==> *final(self) is Mmc2,
            final(config).total_prg_rom_size == old(config).total_prg_rom_size,
            final(config).total_chr_rom_size == old(config).total_chr_rom_size,
            final(config).prg_bank_size == old(config).prg_bank_size,
            final(config).chr_bank_size == old(config).chr_bank_size,
            final(config).prg_banks == old(config).prg_banks,
            final(config).is_custom_prg == old(config).is_custom_prg,
            final(config).is_custom_chr == old(config).is_custom_chr,
            final(config).is_custom_nametable == old(config).is_custom_nametable,
            final(config).mirroring == old(config).mirroring,
            *old(self) is Mmc2 ==> mmc2_chr_read_hook((*old(self))->Mmc2_0, *old(config), (*final(self))->Mmc2_0,
                *final(config), address),
    {
        match self {
            Mapper::Mmc2(m) => m.on_read_chr(address, config),
            _ => {},
        }
    }
}

} // verus!
